use canvas_cli::Api;
use canvas_cli::Config;
use canvas_cli::Course;
use canvas_cli::ResolveAction;
use canvas_cli::ResolveError;
use canvas_cli::WorkflowState;
use canvas_cli::find_course_id;
use canvas_cli::parse_course_token;
use canvas_cli::resolve_course_step;

fn course(id: u64, name: &str) -> Course {
    Course {
        id,
        uuid: format!("uuid-{}", id),
        name: name.to_string(),
        course_code: format!("C{}", id),
        workflow_state: WorkflowState::Available,
        enrollment_term_id: 1,
        start_at: None,
        end_at: None,
        is_public: None,
        public_description: None,
    }
}

fn config() -> Config {
    Config {
        api: Api {
            key: "token".to_string(),
            url: "canvas.example.com".to_string(),
        },
    }
}

#[test]
fn numeric_token_is_the_id() {
    assert_eq!(parse_course_token("42"), Some(42));
    // The course list plays no part for a numeric token: no listed id is 42.
    let courses = vec![course(1, "Intro to Foo"), course(2, "Bio A")];
    assert!(matches!(find_course_id("42", &courses), Ok(42)));
}

#[test]
fn numeric_token_needs_no_fetch() {
    match resolve_course_step(&config(), "7") {
        ResolveAction::UseId(id) => assert_eq!(id, 7),
        ResolveAction::FetchCourseList(url) => panic!("asked to fetch {}", url),
    }
}

#[test]
fn plus_sign_token_parses() {
    assert_eq!(parse_course_token("+7"), Some(7));
}

#[test]
fn largest_id_parses() {
    assert_eq!(
        parse_course_token("18446744073709551615"),
        Some(u64::MAX)
    );
}

#[test]
fn non_numeric_tokens_do_not_parse() {
    assert_eq!(parse_course_token(""), None);
    assert_eq!(parse_course_token("+"), None);
    assert_eq!(parse_course_token("-3"), None);
    assert_eq!(parse_course_token("4 2"), None);
    assert_eq!(parse_course_token("12a"), None);
    assert_eq!(parse_course_token("Bio"), None);
}

#[test]
fn overflowing_token_is_a_name() {
    // One past the largest 64-bit id: read as a name prefix, not an id.
    assert_eq!(parse_course_token("18446744073709551616"), None);
}

#[test]
fn name_token_fetches_the_course_list_once() {
    match resolve_course_step(&config(), "Intro") {
        ResolveAction::FetchCourseList(url) => assert_eq!(
            url,
            "https://canvas.example.com/api/v1/courses?per_page=32"
        ),
        ResolveAction::UseId(id) => panic!("resolved to {} without a fetch", id),
    }
}

#[test]
fn prefix_is_anchored_at_the_start() {
    let matching = vec![course(1, "Biology 101")];
    assert!(matches!(find_course_id("Bio", &matching), Ok(1)));

    let inner = vec![course(1, "AP Biology")];
    match find_course_id("Bio", &inner) {
        Err(ResolveError::NoMatch(t)) => assert_eq!(t, "Bio"),
        other => panic!("expected no match, got {:?}", other),
    }
}

#[test]
fn prefix_is_case_sensitive() {
    let courses = vec![course(1, "Biology 101")];
    assert!(matches!(
        find_course_id("bio", &courses),
        Err(ResolveError::NoMatch(_))
    ));
}

#[test]
fn single_prefix_match_resolves() {
    let courses = vec![course(1, "Intro to Foo")];
    assert!(matches!(find_course_id("Intro", &courses), Ok(1)));

    match find_course_id("Zzz", &courses) {
        Err(ResolveError::NoMatch(t)) => {
            assert_eq!(t, "Zzz");
        }
        other => panic!("expected no match, got {:?}", other),
    }
}

#[test]
fn two_prefix_matches_are_ambiguous() {
    let courses = vec![course(1, "Bio A"), course(2, "Bio B")];
    match find_course_id("Bio", &courses) {
        Err(ResolveError::Ambiguous(t)) => assert_eq!(t, "Bio"),
        other => panic!("expected ambiguity, got {:?}", other),
    }
}

#[test]
fn exact_equality_does_not_disambiguate() {
    let courses = vec![course(1, "Math"), course(2, "Math 2")];
    assert!(matches!(
        find_course_id("Math", &courses),
        Err(ResolveError::Ambiguous(_))
    ));
}

#[test]
fn later_single_match_resolves() {
    let courses = vec![course(1, "Alpha"), course(2, "Beta")];
    assert!(matches!(find_course_id("Bet", &courses), Ok(2)));
}

#[test]
fn rendered_ids_read_back() {
    for id in [0u64, 7, 32, 1234567890, u64::MAX] {
        let token = canvas_cli::u64_to_string(id);
        assert_eq!(parse_course_token(&token), Some(id));
    }
}

#[test]
fn resolve_error_messages() {
    assert_eq!(
        ResolveError::NoMatch("Zzz".to_string()).message(),
        "No course starts with \"Zzz\""
    );
    assert_eq!(
        ResolveError::Ambiguous("Bio".to_string()).message(),
        "Multiple courses start with \"Bio\""
    );
}
