//! Grant-check deny codes and the identifier charset shared by job ids and
//! delivery ids.

use vstd::prelude::*;
use crate::text::chars_of;

verus! {

/// No grant file exists for the job.
pub const DENY_NO_GRANT_FILE: &'static str = "no_grant_file";
/// The grant has expired.
pub const DENY_EXPIRED: &'static str = "grant_expired";
/// The venue is not authorised by the grant.
pub const DENY_VENUE_NOT_AUTHORIZED: &'static str = "venue_not_authorized";
/// The grant sets no cap for the venue and action.
pub const DENY_NO_CAP: &'static str = "no_cap";
/// The spend is above the cap.
pub const DENY_OVER_CAP: &'static str = "over_cap";

/// A grant-check refusal, carrying its stable deny code.
#[derive(Debug, Clone, Copy, PartialEq, Eq)]
pub struct GrantDeny(pub &'static str);

impl GrantDeny {
    /// The stable deny code.
    pub fn code(&self) -> (r: &'static str)
        ensures
            r@ == self.0@,
    {
        self.0
    }
}

/// The longest accepted identifier, in characters.
pub const MAX_ID_CHARS: usize = 128;

/// An identifier character: ASCII letter, digit, `_` or `-`.
pub open spec fn is_id_char(c: char) -> bool {
    ('a' <= c && c <= 'z') || ('A' <= c && c <= 'Z') || ('0' <= c && c <= '9') || c == '_' || c
        == '-'
}

/// A non-empty identifier of at most 128 characters from `[A-Za-z0-9_-]`: safe
/// to use as one path component (no `/`, `.` or whitespace).
pub open spec fn is_safe_id(s: Seq<char>) -> bool {
    0 < s.len() <= MAX_ID_CHARS && forall|i: int| 0 <= i < s.len() ==> is_id_char(#[trigger] s[i])
}

fn id_char(c: char) -> (r: bool)
    ensures
        r == is_id_char(c),
{
    ('a' <= c && c <= 'z') || ('A' <= c && c <= 'Z') || ('0' <= c && c <= '9') || c == '_' || c
        == '-'
}

/// Whether `s` is a safe identifier (see [`is_safe_id`]).
pub fn is_safe_id_str(s: &str) -> (r: bool)
    ensures
        r == is_safe_id(s@),
{
    let v = chars_of(s);
    if v.len() == 0 || v.len() > MAX_ID_CHARS {
        return false;
    }
    let mut i: usize = 0;
    while i < v.len()
        invariant
            i <= v@.len(),
            v@ == s@,
            forall|j: int| 0 <= j < i ==> is_id_char(#[trigger] v@[j]),
        decreases v@.len() - i,
    {
        if !id_char(v[i]) {
            return false;
        }
        i = i + 1;
    }
    true
}

/// Whether a job id may be used in a path: the same charset as a delivery id.
pub fn job_id_is_safe(job_id: &str) -> (r: bool)
    ensures
        r == is_safe_id(job_id@),
{
    is_safe_id_str(job_id)
}


/// A safe identifier is one path component that stays where it is put: it
/// is not empty, holds no `/`, backslash, `.` or whitespace (so neither `..`
/// nor a nested path), and is at most 128 characters long.
pub proof fn lemma_safe_id_is_one_component(s: Seq<char>)
    requires
        is_safe_id(s),
    ensures
        s.len() > 0,
        s.len() <= 128,
        !s.contains('/'),
        !s.contains('\\'),
        !s.contains('.'),
        !s.contains(' '),
        !s.contains('\t'),
        !s.contains('\n'),
{
    assert forall|i: int| 0 <= i < s.len() implies s[i] != '/' && s[i] != '\\' && s[i] != '.' && s[i] != ' '
        && s[i] != '\t' && s[i] != '\n' by {
        assert(is_id_char(s[i]));
    }
}

} // verus!
