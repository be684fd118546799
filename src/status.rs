//! Lifecycle status of a channel: classification from raw flags or from the
//! text of a failed fetch.

use vstd::prelude::*;
use vstd::string::*;

verus! {

/// The four lifecycle states a channel can be in.
#[derive(PartialEq, Eq, Structural, Clone, Copy, Debug)]
pub enum StatusCode {
    Suspended,
    Deleted,
    Hidden,
    Active,
}

/// The integer stored for each status.
pub open spec fn code_of(s: StatusCode) -> i32 {
    match s {
        StatusCode::Suspended => 1,
        StatusCode::Deleted => 2,
        StatusCode::Hidden => 3,
        StatusCode::Active => 4,
    }
}

/// Classification of raw flags: the first flag that is set wins, in the order
/// terminated, deleted, hidden.
pub open spec fn status_of_flags(terminated: bool, deleted: bool, hidden: bool) -> StatusCode {
    if terminated {
        StatusCode::Suspended
    } else if deleted {
        StatusCode::Deleted
    } else if hidden {
        StatusCode::Hidden
    } else {
        StatusCode::Active
    }
}

/// `p` occurs in `s` as a contiguous run of characters.
pub open spec fn has_infix(s: Seq<char>, p: Seq<char>) -> bool {
    exists|i: int| 0 <= i && i + p.len() <= s.len() && #[trigger] s.subrange(i, i + p.len()) == p
}

/// Classification of an already lower-cased error text.
pub open spec fn status_of_error_text(t: Seq<char>) -> Option<StatusCode> {
    if has_infix(t, "terminated"@) || has_infix(t, "suspended"@) {
        Some(StatusCode::Suspended)
    } else if has_infix(t, "deleted"@) {
        Some(StatusCode::Deleted)
    } else if has_infix(t, "hidden"@) || has_infix(t, "private"@) {
        Some(StatusCode::Hidden)
    } else {
        None
    }
}

/// The lower-case form of a text, as `str::to_lowercase` computes it.
pub uninterp spec fn lower_of(s: Seq<char>) -> Seq<char>;

/// Relies on `str::to_lowercase`: the result depends on the characters alone.
#[verifier::external_body]
fn lowercase(s: &str) -> (r: String)
    ensures
        r@ == lower_of(s@),
{
    s.to_lowercase()
}

impl StatusCode {
    /// Status from the three independent flags of a channel.
    pub fn from_flags(terminated: bool, deleted: bool, hidden: bool) -> (r: StatusCode)
        ensures
            r == status_of_flags(terminated, deleted, hidden),
    {
        if terminated {
            StatusCode::Suspended
        } else if deleted {
            StatusCode::Deleted
        } else if hidden {
            StatusCode::Hidden
        } else {
            StatusCode::Active
        }
    }

    /// The integer under which the status is stored.
    pub fn code(&self) -> (r: i32)
        ensures
            r == code_of(*self),
            1 <= r <= 4,
    {
        match self {
            StatusCode::Suspended => 1,
            StatusCode::Deleted => 2,
            StatusCode::Hidden => 3,
            StatusCode::Active => 4,
        }
    }

    /// A human-readable name of the status.
    pub fn name(&self) -> (r: &'static str)
        ensures
            *self == StatusCode::Suspended ==> r@ == "suspended"@,
            *self == StatusCode::Deleted ==> r@ == "deleted"@,
            *self == StatusCode::Hidden ==> r@ == "hidden"@,
            *self == StatusCode::Active ==> r@ == "active"@,
    {
        match self {
            StatusCode::Suspended => "suspended",
            StatusCode::Deleted => "deleted",
            StatusCode::Hidden => "hidden",
            StatusCode::Active => "active",
        }
    }
}

/// Whether `needle` occurs in `hay`.
pub fn contains_text(hay: &str, needle: &str) -> (r: bool)
    ensures
        r == has_infix(hay@, needle@),
{
    let n = hay.unicode_len();
    let m = needle.unicode_len();
    if m > n {
        return false;
    }
    let mut i: usize = 0;
    while i <= n - m
        invariant
            n == hay@.len(),
            m == needle@.len(),
            m <= n,
            i <= n - m + 1,
            forall|k: int| 0 <= k < i ==> #[trigger] hay@.subrange(k, k + m) != needle@,
        decreases n - m + 1 - i,
    {
        let mut j: usize = 0;
        let mut same = true;
        while j < m && same
            invariant
                n == hay@.len(),
                m == needle@.len(),
                i + m <= n,
                j <= m,
                same ==> forall|t: int| 0 <= t < j ==> hay@[i + t] == needle@[t],
                !same ==> hay@.subrange(i as int, i + m) != needle@,
            decreases m - j,
        {
            if hay.get_char(i + j) != needle.get_char(j) {
                same = false;
                assert(hay@.subrange(i as int, i + m)[j as int] == hay@[i + j]);
            }
            j = j + 1;
        }
        if same {
            assert(hay@.subrange(i as int, i + m) =~= needle@);
            return true;
        }
        if i == n - m {
            return false;
        }
        i = i + 1;
    }
    false
}

/// Status that an already lower-cased error text points to, if any.
pub fn classify_lowered(t: &str) -> (r: Option<StatusCode>)
    ensures
        r == status_of_error_text(t@),
{
    if contains_text(t, "terminated") || contains_text(t, "suspended") {
        Some(StatusCode::Suspended)
    } else if contains_text(t, "deleted") {
        Some(StatusCode::Deleted)
    } else if contains_text(t, "hidden") || contains_text(t, "private") {
        Some(StatusCode::Hidden)
    } else {
        None
    }
}

/// Status that the text of a failed fetch points to, matched without regard
/// to case; `None` when the text names no known lifecycle state.
pub fn classify_error(text: &str) -> (r: Option<StatusCode>)
    ensures
        r == status_of_error_text(lower_of(text@)),
{
    let lowered = lowercase(text);
    classify_lowered(lowered.as_str())
}

/// Termination dominates every other flag.
pub proof fn lemma_terminated_dominates(deleted: bool, hidden: bool)
    ensures
        status_of_flags(true, deleted, hidden) == StatusCode::Suspended,
        code_of(status_of_flags(true, deleted, hidden)) == 1,
{
}

} // verus!
