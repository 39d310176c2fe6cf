//! The request URLs of the remote API, one builder per resource.

use vstd::prelude::*;

use crate::config::Config;
use crate::config::api_url_spec;
use crate::digits::dec_digits;
use crate::digits::u64_to_string;

verus! {

/// `s` with every leading `/` removed.
pub open spec fn strip_leading_slashes(s: Seq<char>) -> Seq<char>
    decreases s.len(),
{
    if s.len() > 0 && s[0] == '/' {
        strip_leading_slashes(s.drop_first())
    } else {
        s
    }
}

/// The URL listing all courses, one page of up to 32.
pub open spec fn course_list_url_spec(c: Config) -> Seq<char> {
    api_url_spec(c) + "/courses?per_page=32"@
}

/// The URL of the root folder of a course.
pub open spec fn root_folder_url_spec(c: Config, course_id: u64) -> Seq<char> {
    api_url_spec(c) + "/courses/"@ + dec_digits(course_id as nat) + "/folders/root/"@
}

/// The URL looking a folder up by its path; the path's leading `/` are
/// stripped before substitution.
pub open spec fn folder_by_path_url_spec(c: Config, course_id: u64, path: Seq<char>) -> Seq<char> {
    api_url_spec(c) + "/courses/"@ + dec_digits(course_id as nat) + "/folders/by_path/"@
        + strip_leading_slashes(path)
}

/// The URL listing the assignments of a course.
pub open spec fn assignments_url_spec(c: Config, course_id: u64) -> Seq<char> {
    api_url_spec(c) + "/courses/"@ + dec_digits(course_id as nat) + "/assignments/"@
}

/// `path` with every leading `/` removed.
fn trim_leading_slashes<'a>(path: &'a str) -> (r: &'a str)
    ensures
        r@ == strip_leading_slashes(path@),
{
    let len = path.unicode_len();
    let mut i: usize = 0;
    proof {
        assert(path@.skip(0) =~= path@);
    }
    while i < len && path.get_char(i) == '/'
        invariant
            0 <= i <= len,
            len == path@.len(),
            strip_leading_slashes(path@) == strip_leading_slashes(path@.skip(i as int)),
        decreases len - i,
    {
        proof {
            assert(path@.skip(i as int).drop_first() =~= path@.skip(i as int + 1));
        }
        i = i + 1;
    }
    proof {
        assert(path@.skip(0) =~= path@);
        assert(path@.subrange(i as int, len as int) =~= path@.skip(i as int));
        if i < len {
            assert(path@.skip(i as int)[0] == path@[i as int]);
        }
    }
    path.substring_char(i, len)
}

/// Builds the course-list URL: `{base}/courses?per_page=32`.
pub fn course_list_url(config: &Config) -> (r: String)
    ensures
        r@ == course_list_url_spec(*config),
{
    let mut s = config.api_url();
    s.append("/courses?per_page=32");
    s
}

/// Builds the root-folder URL: `{base}/courses/{id}/folders/root/`.
pub fn root_folder_url(config: &Config, course_id: u64) -> (r: String)
    ensures
        r@ == root_folder_url_spec(*config, course_id),
{
    let mut s = config.api_url();
    s.append("/courses/");
    let id = u64_to_string(course_id);
    s.append(id.as_str());
    s.append("/folders/root/");
    s
}

/// Builds the folder-by-path URL: `{base}/courses/{id}/folders/by_path/{path}`,
/// with the path's leading `/` stripped.
pub fn folder_by_path_url(config: &Config, course_id: u64, path: &str) -> (r: String)
    ensures
        r@ == folder_by_path_url_spec(*config, course_id, path@),
{
    let mut s = config.api_url();
    s.append("/courses/");
    let id = u64_to_string(course_id);
    s.append(id.as_str());
    s.append("/folders/by_path/");
    s.append(trim_leading_slashes(path));
    s
}

/// Builds the assignments URL: `{base}/courses/{id}/assignments/`.
pub fn assignments_url(config: &Config, course_id: u64) -> (r: String)
    ensures
        r@ == assignments_url_spec(*config, course_id),
{
    let mut s = config.api_url();
    s.append("/courses/");
    let id = u64_to_string(course_id);
    s.append(id.as_str());
    s.append("/assignments/");
    s
}

} // verus!
