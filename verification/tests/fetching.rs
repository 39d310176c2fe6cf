use canvas_cli::FetchError;
use canvas_cli::Folder;
use canvas_cli::HttpEvent;
use canvas_cli::get_course_folder;
use canvas_cli::response_body;

fn folder(id: u64, name: &str) -> Folder {
    Folder {
        id,
        folders_url: format!("https://x/api/v1/folders/{}/folders", id),
        files_url: format!("https://x/api/v1/folders/{}/files", id),
        name: name.to_string(),
        full_name: format!("course files/{}", name),
    }
}

#[test]
fn success_body_is_handed_on() {
    let body = b"[{\"id\":1}]".to_vec();
    let event = HttpEvent::Response {
        status: 200,
        body: body.clone(),
    };
    assert_eq!(response_body("https://x/api", event).unwrap(), body);
}

#[test]
fn error_status_skips_decode() {
    // The body is valid JSON, yet a non-success status discards it unread.
    let event = HttpEvent::Response {
        status: 404,
        body: b"[{\"id\":1,\"name\":\"Intro to Foo\"}]".to_vec(),
    };
    match response_body("https://x/api/v1/courses", event) {
        Err(FetchError::HttpStatus { url, status }) => {
            assert_eq!(url, "https://x/api/v1/courses");
            assert_eq!(status, 404);
        }
        other => panic!("expected a status error, got {:?}", other),
    }
}

#[test]
fn success_range_bounds() {
    for status in [200u16, 299] {
        let event = HttpEvent::Response {
            status,
            body: Vec::new(),
        };
        assert!(response_body("u", event).is_ok());
    }
    for status in [199u16, 300, 500] {
        let event = HttpEvent::Response {
            status,
            body: Vec::new(),
        };
        assert!(matches!(
            response_body("u", event),
            Err(FetchError::HttpStatus { status: s, .. }) if s == status
        ));
    }
}

#[test]
fn transport_failure_is_reported() {
    let event = HttpEvent::Failed("connection refused".to_string());
    match response_body("u", event) {
        Err(FetchError::Transport(d)) => assert_eq!(d, "connection refused"),
        other => panic!("expected a transport error, got {:?}", other),
    }
}

#[test]
fn empty_folder_list_is_not_found() {
    match get_course_folder("/no/such/path", Vec::new()) {
        Err(FetchError::NotFound(p)) => assert_eq!(p, "/no/such/path"),
        other => panic!("expected not-found, got {:?}", other),
    }
}

#[test]
fn last_folder_is_chosen() {
    let folders = vec![folder(1, "top"), folder(2, "leaf")];
    let picked = get_course_folder("/top/leaf", folders).unwrap();
    assert_eq!(picked.id, 2);
    assert_eq!(picked.name, "leaf");
}

#[test]
fn fetch_error_messages() {
    assert_eq!(
        FetchError::Transport("dns".to_string()).message(),
        "Failed to request (dns)"
    );
    assert_eq!(
        FetchError::HttpStatus {
            url: "https://x/api".to_string(),
            status: 404,
        }
        .message(),
        "Failed to fetch https://x/api: HTTP status 404"
    );
    assert_eq!(
        FetchError::Decode("missing field".to_string()).message(),
        "Failed to load (missing field)"
    );
    assert_eq!(
        FetchError::NotFound("/a/b".to_string()).message(),
        "No files at path /a/b"
    );
}
