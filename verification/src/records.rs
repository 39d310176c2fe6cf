//! The typed records fetched from the remote API.
//!
//! Every record is an immutable snapshot decoded from a JSON response body.
//! Timestamps are carried as seconds since the Unix epoch, so that the
//! records hold plain values only; the surrounding program converts its
//! decoded calendar values when it builds them.

use vstd::prelude::*;

verus! {

/// The lifecycle state of a course.
#[derive(Debug, Clone, Copy, PartialEq, Eq, Structural)]
pub enum WorkflowState {
    Unpublished,
    Available,
    Completed,
    Deleted,
}

/// One course, as listed by `GET {base}/courses`.
///
/// `id` is unique within one fetched list; `name` may collide across
/// courses, which is why resolving a name prefix can be ambiguous.
#[derive(Debug, Clone)]
pub struct Course {
    pub id: u64,
    pub uuid: String,
    pub name: String,
    pub course_code: String,
    pub workflow_state: WorkflowState,
    pub enrollment_term_id: u64,
    pub start_at: Option<i64>,
    pub end_at: Option<i64>,
    pub is_public: Option<bool>,
    pub public_description: Option<String>,
}

/// One folder of a course, with the two navigation URLs the API hands out
/// for listing its sub-folders and its files.
#[derive(Debug, Clone)]
pub struct Folder {
    pub id: u64,
    pub folders_url: String,
    pub files_url: String,
    pub name: String,
    pub full_name: String,
}

/// One file inside a folder.
#[derive(Debug, Clone)]
pub struct File {
    pub id: u64,
    pub display_name: String,
    pub url: String,
}

/// One assignment of a course.
#[derive(Debug, Clone)]
pub struct Assignment {
    pub id: u64,
    pub name: String,
    pub description: Option<String>,
    pub due_at: Option<i64>,
}

} // verus!
