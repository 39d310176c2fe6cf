//! Core of a command-line client for a learning-management REST API.
//!
//! The library holds the decision logic of the client, verified: building
//! request URLs, classifying the outcome of an authenticated GET, selecting
//! a folder from a by-path lookup, and resolving a user-supplied course
//! token (numeric id or name prefix) against a fetched course list.
//! The surrounding program performs the HTTP requests and decodes JSON
//! bodies, and hands the results to this library as plain values.

pub mod config;
pub mod digits;
pub mod fetch;
pub mod folders;
pub mod records;
pub mod resolve;
pub mod urls;

pub use config::Api;
pub use config::Config;
pub use digits::u64_to_string;
pub use fetch::FetchError;
pub use fetch::HttpEvent;
pub use fetch::response_body;
pub use folders::get_course_folder;
pub use records::Assignment;
pub use records::Course;
pub use records::File;
pub use records::Folder;
pub use records::WorkflowState;
pub use resolve::ResolveAction;
pub use resolve::ResolveError;
pub use resolve::find_course_id;
pub use resolve::parse_course_token;
pub use resolve::resolve_course_step;
pub use urls::assignments_url;
pub use urls::course_list_url;
pub use urls::folder_by_path_url;
pub use urls::root_folder_url;
