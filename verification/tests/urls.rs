use canvas_cli::Api;
use canvas_cli::Config;
use canvas_cli::assignments_url;
use canvas_cli::course_list_url;
use canvas_cli::folder_by_path_url;
use canvas_cli::root_folder_url;
use canvas_cli::u64_to_string;

fn config() -> Config {
    Config {
        api: Api {
            key: "token123".to_string(),
            url: "canvas.example.com".to_string(),
        },
    }
}

#[test]
fn api_url_builds() {
    assert_eq!(config().api_url(), "https://canvas.example.com/api/v1");
}

#[test]
fn key_is_the_bearer_token() {
    assert_eq!(config().key(), "token123");
}

#[test]
fn course_list_url_builds() {
    assert_eq!(
        course_list_url(&config()),
        "https://canvas.example.com/api/v1/courses?per_page=32"
    );
}

#[test]
fn root_folder_url_builds() {
    assert_eq!(
        root_folder_url(&config(), 77),
        "https://canvas.example.com/api/v1/courses/77/folders/root/"
    );
}

#[test]
fn folder_by_path_url_strips_the_leading_slash() {
    assert_eq!(
        folder_by_path_url(&config(), 77, "/a/b"),
        "https://canvas.example.com/api/v1/courses/77/folders/by_path/a/b"
    );
}

#[test]
fn folder_by_path_url_strips_every_leading_slash() {
    assert_eq!(
        folder_by_path_url(&config(), 5, "//x"),
        "https://canvas.example.com/api/v1/courses/5/folders/by_path/x"
    );
}

#[test]
fn folder_by_path_url_keeps_a_bare_path() {
    assert_eq!(
        folder_by_path_url(&config(), 5, "notes"),
        "https://canvas.example.com/api/v1/courses/5/folders/by_path/notes"
    );
    assert_eq!(
        folder_by_path_url(&config(), 5, ""),
        "https://canvas.example.com/api/v1/courses/5/folders/by_path/"
    );
}

#[test]
fn assignments_url_builds() {
    assert_eq!(
        assignments_url(&config(), 9000000000),
        "https://canvas.example.com/api/v1/courses/9000000000/assignments/"
    );
}

#[test]
fn ids_render_in_decimal() {
    assert_eq!(u64_to_string(0), "0");
    assert_eq!(u64_to_string(7), "7");
    assert_eq!(u64_to_string(1234567890), "1234567890");
    assert_eq!(u64_to_string(u64::MAX), "18446744073709551615");
}
