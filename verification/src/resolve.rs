//! Resolving a user-supplied course token to a numeric course id.
//!
//! A token that reads as a non-negative integer is the id itself: no request
//! is issued and no existence check is made (a bad numeric id surfaces only
//! when a later call fails). Any other token names a course by a prefix of
//! its title, decided against the fetched course list: the match is
//! case-sensitive and anchored at the start of the name, and anything but
//! exactly one matching name is an error.

use vstd::prelude::*;

use crate::config::Config;
use crate::digits::all_digits;
use crate::digits::dec_digits;
use crate::digits::digit_val;
use crate::digits::digits_val;
use crate::digits::is_digit;
use crate::digits::lemma_dec_digits_val;
use crate::digits::lemma_digits_val_subrange_le;
use crate::digits::lemma_digits_val_subrange_succ;
use crate::records::Course;
use crate::urls::course_list_url;
use crate::urls::course_list_url_spec;

verus! {

/// Why a course token could not be resolved.
#[derive(Debug)]
pub enum ResolveError {
    /// No course name starts with the token; carries the token.
    NoMatch(String),
    /// Two or more course names start with the token; carries the token.
    Ambiguous(String),
}

/// The token without its optional leading `+` sign.
pub open spec fn digits_part(s: Seq<char>) -> Seq<char> {
    if s.len() > 0 && s[0] == '+' {
        s.drop_first()
    } else {
        s
    }
}

/// The id a token names directly: `Some` exactly when the token is an
/// optional `+` followed by one or more decimal digits whose value fits in
/// a 64-bit id.
pub open spec fn numeric_token_value(s: Seq<char>) -> Option<u64> {
    if digits_part(s).len() > 0 && all_digits(digits_part(s)) && digits_val(digits_part(s))
        <= u64::MAX {
        Some(digits_val(digits_part(s)) as u64)
    } else {
        None
    }
}

/// Reads the token as a non-negative integer id, if it is one.
pub fn parse_course_token(course_id: &str) -> (r: Option<u64>)
    ensures
        r == numeric_token_value(course_id@),
{
    let len = course_id.unicode_len();
    let mut start: usize = 0;
    if len > 0 && course_id.get_char(0) == '+' {
        start = 1;
    }
    proof {
        assert(digits_part(course_id@) =~= course_id@.subrange(start as int, len as int));
    }
    if start == len {
        return None;
    }
    let ghost digits = course_id@.subrange(start as int, len as int);
    let mut acc: u64 = 0;
    let mut i = start;
    while i < len
        invariant
            start <= i <= len,
            start < len,
            len == course_id@.len(),
            digits == course_id@.subrange(start as int, len as int),
            digits == digits_part(course_id@),
            all_digits(course_id@.subrange(start as int, i as int)),
            acc == digits_val(course_id@.subrange(start as int, i as int)),
        decreases len - i,
    {
        let c = course_id.get_char(i);
        let v = c as u32;
        if v < 48 || v > 57 {
            proof {
                assert(digits[i - start] == course_id@[i as int]);
                assert(!is_digit(digits[i - start]));
            }
            return None;
        }
        let d = (v - 48) as u64;
        proof {
            lemma_digits_val_subrange_succ(course_id@, start as int, i as int);
            assert(digit_val(course_id@[i as int]) == d);
        }
        let shifted = match acc.checked_mul(10) {
            Some(m) => m,
            None => {
                proof {
                    lemma_digits_val_subrange_le(course_id@, start as int, i as int + 1);
                }
                return None;
            },
        };
        acc = match shifted.checked_add(d) {
            Some(a) => a,
            None => {
                proof {
                    lemma_digits_val_subrange_le(course_id@, start as int, i as int + 1);
                }
                return None;
            },
        };
        proof {
            assert(forall|j: int|
                start <= j < i + 1 ==> is_digit(
                    #[trigger] course_id@.subrange(start as int, i as int + 1)[j - start],
                ));
        }
        i = i + 1;
    }
    proof {
        assert(digits =~= course_id@.subrange(start as int, i as int));
    }
    Some(acc)
}

/// Whether `name` begins with `token`: case-sensitive, anchored at the
/// start of the name — neither a substring search nor a case fold.
pub open spec fn name_matches(token: Seq<char>, name: Seq<char>) -> bool {
    token.is_prefix_of(name)
}

/// How many courses of the list have a name beginning with `token`.
pub open spec fn match_count(token: Seq<char>, courses: Seq<Course>) -> nat
    decreases courses.len(),
{
    if courses.len() == 0 {
        0
    } else {
        match_count(token, courses.drop_last()) + (if name_matches(
            token,
            courses.last().name@,
        ) {
            1nat
        } else {
            0nat
        })
    }
}

/// Whether some course of the list has a name beginning with `token` and
/// carries this id.
pub open spec fn matching_id(token: Seq<char>, courses: Seq<Course>, id: u64) -> bool {
    exists|i: int|
        #![auto]
        0 <= i < courses.len() && name_matches(token, courses[i].name@) && courses[i].id == id
}

/// Scanning one more course raises the count exactly when its name matches.
pub proof fn lemma_match_count_take_succ(token: Seq<char>, courses: Seq<Course>, i: int)
    requires
        0 <= i < courses.len(),
    ensures
        match_count(token, courses.take(i + 1)) == match_count(token, courses.take(i)) + (
        if name_matches(token, courses[i].name@) {
            1nat
        } else {
            0nat
        }),
{
    assert(courses.take(i + 1).drop_last() =~= courses.take(i));
    assert(courses.take(i + 1).last() == courses[i]);
}

/// The count over a scanned prefix never shrinks as the scan goes on.
pub proof fn lemma_match_count_take_mono(token: Seq<char>, courses: Seq<Course>, a: int, b: int)
    requires
        0 <= a <= b <= courses.len(),
    ensures
        match_count(token, courses.take(a)) <= match_count(token, courses.take(b)),
    decreases b - a,
{
    if a < b {
        lemma_match_count_take_succ(token, courses, a);
        lemma_match_count_take_mono(token, courses, a + 1, b);
    }
}

/// Whether `name` begins with `token`.
fn name_starts_with(name: &str, token: &str) -> (r: bool)
    ensures
        r == name_matches(token@, name@),
{
    let token_len = token.unicode_len();
    let name_len = name.unicode_len();
    if token_len > name_len {
        return false;
    }
    let mut i: usize = 0;
    while i < token_len
        invariant
            0 <= i <= token_len <= name_len,
            token_len == token@.len(),
            name_len == name@.len(),
            forall|j: int| 0 <= j < i ==> token@[j] == name@[j],
        decreases token_len - i,
    {
        if name.get_char(i) != token.get_char(i) {
            proof {
                assert(name@.subrange(0, token@.len() as int)[i as int] == name@[i as int]);
            }
            return false;
        }
        i = i + 1;
    }
    proof {
        assert(token@ =~= name@.subrange(0, token@.len() as int));
    }
    true
}

/// Resolves a course token against the fetched course list.
///
/// A numeric token is the id itself, and the list plays no part. Any other
/// token must be a prefix of exactly one course name, scanned in listing
/// order: no matching name is [`ResolveError::NoMatch`], two or more are
/// [`ResolveError::Ambiguous`] — an exact-equality match among them earns no
/// preference.
pub fn find_course_id(course_id: &str, courses: &Vec<Course>) -> (r: Result<u64, ResolveError>)
    ensures
        numeric_token_value(course_id@) matches Some(n) ==> r == Ok::<u64, ResolveError>(n),
        numeric_token_value(course_id@) is None && match_count(course_id@, courses@) == 0 ==> (
        r matches Err(ResolveError::NoMatch(t)) && t@ == course_id@),
        numeric_token_value(course_id@) is None && match_count(course_id@, courses@) == 1 ==> (
        r matches Ok(id) && matching_id(course_id@, courses@, id)),
        numeric_token_value(course_id@) is None && match_count(course_id@, courses@) >= 2 ==> (
        r matches Err(ResolveError::Ambiguous(t)) && t@ == course_id@),
{
    if let Some(id) = parse_course_token(course_id) {
        return Ok(id);
    }
    let mut found: Option<u64> = None;
    let ghost mut witness: int = 0;
    let n = courses.len();
    let mut i: usize = 0;
    while i < n
        invariant
            0 <= i <= n,
            n == courses@.len(),
            numeric_token_value(course_id@) is None,
            found is None ==> match_count(course_id@, courses@.take(i as int)) == 0,
            found matches Some(id) ==> match_count(course_id@, courses@.take(i as int)) == 1
                && 0 <= witness < i && name_matches(course_id@, courses@[witness].name@)
                && courses@[witness].id == id,
        decreases n - i,
    {
        let course = &courses[i];
        if name_starts_with(course.name.as_str(), course_id) {
            proof {
                lemma_match_count_take_succ(course_id@, courses@, i as int);
            }
            if found.is_none() {
                found = Some(course.id);
                proof {
                    witness = i as int;
                }
            } else {
                proof {
                    lemma_match_count_take_mono(course_id@, courses@, i as int + 1, n as int);
                    assert(courses@.take(n as int) =~= courses@);
                }
                return Err(ResolveError::Ambiguous(String::from_str(course_id)));
            }
        } else {
            proof {
                lemma_match_count_take_succ(course_id@, courses@, i as int);
            }
        }
        i = i + 1;
    }
    proof {
        assert(courses@.take(n as int) =~= courses@);
    }
    match found {
        Some(id) => Ok(id),
        None => Err(ResolveError::NoMatch(String::from_str(course_id))),
    }
}

/// What the resolver asks of its caller for a given token.
#[derive(Debug)]
pub enum ResolveAction {
    /// The token is numeric: this is the id, and no request is to be made.
    UseId(u64),
    /// The token is a name prefix: fetch the course list at this URL — one
    /// request, and the only one — and hand the decoded courses to
    /// [`find_course_id`].
    FetchCourseList(String),
}

/// The first step of resolving a course token: decides from the token alone
/// whether an id is already at hand or the course list must be fetched, and
/// from where.
pub fn resolve_course_step(config: &Config, course_id: &str) -> (a: ResolveAction)
    ensures
        numeric_token_value(course_id@) matches Some(n) ==> a == ResolveAction::UseId(n),
        numeric_token_value(course_id@) is None ==> (a matches ResolveAction::FetchCourseList(u)
            && u@ == course_list_url_spec(*config)),
{
    match parse_course_token(course_id) {
        Some(id) => ResolveAction::UseId(id),
        None => ResolveAction::FetchCourseList(course_list_url(config)),
    }
}

/// Law: prefix resolution decides purely from the names and ids of the
/// fetched list: two lists that agree on every course's name and id have the
/// same match count and admit the same resolved ids, for every token.
pub proof fn lemma_resolution_from_names_only(token: Seq<char>, c1: Seq<Course>, c2: Seq<Course>)
    requires
        c1.len() == c2.len(),
        forall|i: int|
            0 <= i < c1.len() ==> (#[trigger] c1[i]).name@ == c2[i].name@ && c1[i].id == c2[i].id,
    ensures
        match_count(token, c1) == match_count(token, c2),
        forall|id: u64| #[trigger] matching_id(token, c1, id) <==> matching_id(token, c2, id),
    decreases c1.len(),
{
    if c1.len() > 0 {
        assert forall|i: int| 0 <= i < c1.drop_last().len() implies (#[trigger] c1.drop_last()[i]).name@
            == c2.drop_last()[i].name@ && c1.drop_last()[i].id == c2.drop_last()[i].id by {
            assert(c1.drop_last()[i] == c1[i]);
            assert(c2.drop_last()[i] == c2[i]);
        }
        lemma_resolution_from_names_only(token, c1.drop_last(), c2.drop_last());
        assert(c1.last().name@ == c2.last().name@);
    }
    assert forall|id: u64| #[trigger] matching_id(token, c1, id) implies matching_id(
        token,
        c2,
        id,
    ) by {
        let i = choose|i: int|
            #![auto]
            0 <= i < c1.len() && name_matches(token, c1[i].name@) && c1[i].id == id;
        assert(0 <= i < c2.len() && name_matches(token, c2[i].name@) && c2[i].id == id);
    }
    assert forall|id: u64| matching_id(token, c2, id) implies #[trigger] matching_id(
        token,
        c1,
        id,
    ) by {
        let i = choose|i: int|
            #![auto]
            0 <= i < c2.len() && name_matches(token, c2[i].name@) && c2[i].id == id;
        assert(0 <= i < c1.len() && name_matches(token, c1[i].name@) && c1[i].id == id);
    }
}

/// Law: an exact-equality match earns no preference. Whenever one course's
/// name equals the token outright and any other course's name merely begins
/// with it, the match count reaches two, so resolution reports the token
/// ambiguous rather than picking the exact match.
pub proof fn lemma_exact_match_does_not_disambiguate(
    token: Seq<char>,
    courses: Seq<Course>,
    i: int,
    j: int,
)
    requires
        0 <= i < courses.len(),
        0 <= j < courses.len(),
        i != j,
        courses[i].name@ == token,
        name_matches(token, courses[j].name@),
    ensures
        match_count(token, courses) >= 2,
{
    assert(token =~= token.subrange(0, token.len() as int));
    let lo = if i < j {
        i
    } else {
        j
    };
    let hi = if i < j {
        j
    } else {
        i
    };
    lemma_match_count_take_mono(token, courses, 0, lo);
    lemma_match_count_take_succ(token, courses, lo);
    lemma_match_count_take_mono(token, courses, lo + 1, hi);
    lemma_match_count_take_succ(token, courses, hi);
    lemma_match_count_take_mono(token, courses, hi + 1, courses.len() as int);
    assert(courses.take(courses.len() as int) =~= courses);
}

/// Law: an id rendered in decimal reads back as the same id. The token shown
/// beside a listed course — its id, as [`crate::digits::u64_to_string`]
/// renders it — always takes the numeric fast path and resolves to that very
/// id, with no course list consulted.
pub proof fn lemma_rendered_id_reads_back(n: u64)
    ensures
        numeric_token_value(dec_digits(n as nat)) == Some(n),
{
    lemma_dec_digits_val(n as nat);
    let d = dec_digits(n as nat);
    assert(d[0] != '+') by {
        assert(is_digit(d[0]));
    }
    assert(digits_part(d) == d);
}

impl ResolveError {
    /// The single-line description of this error, as the command prints it.
    pub fn message(&self) -> (r: String)
        ensures
            self matches ResolveError::NoMatch(t) ==> r@ == "No course starts with \""@ + t@
                + "\""@,
            self matches ResolveError::Ambiguous(t) ==> r@ == "Multiple courses start with \""@
                + t@ + "\""@,
    {
        match self {
            ResolveError::NoMatch(t) => {
                let mut s = String::from_str("No course starts with \"");
                s.append(t.as_str());
                s.append("\"");
                s
            },
            ResolveError::Ambiguous(t) => {
                let mut s = String::from_str("Multiple courses start with \"");
                s.append(t.as_str());
                s.append("\"");
                s
            },
        }
    }
}

} // verus!
