//! Username validation: the rules a login name must satisfy, and the
//! wrapper type that carries only validated names.

use vstd::prelude::*;
use crate::text::{is_blank, spec_lower, spec_norm, spec_trim};

verus! {

/// Characters allowed in a username: letters, digits, hyphen, underscore.
pub open spec fn is_alpha_dash_char(c: char) -> bool {
    (97 <= c as u32 <= 122) || (65 <= c as u32 <= 90) || (48 <= c as u32 <= 57) || c == '-' || c
        == '_'
}

/// Every character is allowed.
pub open spec fn spec_alpha_dash(s: Seq<char>) -> bool {
    forall|i: int| 0 <= i < s.len() ==> is_alpha_dash_char(#[trigger] s[i])
}

/// The value holds something besides whitespace.
pub fn required_trimmed(value: &str) -> (r: bool)
    ensures
        r == !is_blank(value@),
{
    let t = crate::text::trim(value);
    t.as_str().unicode_len() > 0
}

/// Whether every character is a letter, digit, hyphen or underscore.
pub fn alpha_dash(value: &str) -> (r: bool)
    ensures
        r == spec_alpha_dash(value@),
{
    let len = value.unicode_len();
    let mut i: usize = 0;
    while i < len
        invariant
            len == value@.len(),
            0 <= i <= len,
            forall|j: int| 0 <= j < i ==> is_alpha_dash_char(#[trigger] value@[j]),
        decreases len - i,
    {
        let c = value.get_char(i);
        let n: u32 = c as u32;
        let ok = (97 <= n && n <= 122) || (65 <= n && n <= 90) || (48 <= n && n <= 57) || c == '-'
            || c == '_';
        if !ok {
            return false;
        }
        i = i + 1;
    }
    true
}

/// Why a username is rejected.
#[derive(Debug, Clone, Copy, PartialEq, Eq)]
pub enum UsernameIssue {
    /// Blank after trimming.
    Required,
    /// A character outside letters, digits, hyphen and underscore.
    AlphaDash,
    /// An uppercase letter; usernames are stored lowercase.
    Lowercase,
    /// Shorter than 3 or longer than 64 characters after trimming.
    Length,
}

/// What a raw username value must satisfy, after trimming: non-blank,
/// alpha-dash characters only, already lowercase. The first failing rule
/// names the issue.
pub open spec fn spec_validate_username(value: Seq<char>) -> Result<(), UsernameIssue> {
    let t = spec_trim(value);
    if t.len() == 0 {
        Err(UsernameIssue::Required)
    } else if !spec_alpha_dash(t) {
        Err(UsernameIssue::AlphaDash)
    } else if spec_lower(t) != t {
        Err(UsernameIssue::Lowercase)
    } else {
        Ok(())
    }
}

/// Validates a raw username value per [`spec_validate_username`].
pub fn validate_username(value: &str) -> (r: Result<(), UsernameIssue>)
    ensures
        r == spec_validate_username(value@),
{
    let trimmed = crate::text::trim(value);
    if !required_trimmed(trimmed.as_str()) {
        proof {
            crate::text::lemma_trim_blank(trimmed@);
            if spec_trim(trimmed@).len() == 0 && trimmed@.len() > 0 {
                assert(crate::text::is_space(trimmed@[0]));
                lemma_trim_idempotent(value@);
            }
        }
        return Err(UsernameIssue::Required);
    }
    if !alpha_dash(trimmed.as_str()) {
        return Err(UsernameIssue::AlphaDash);
    }
    let lowered = crate::text::to_ascii_lower(trimmed.as_str());
    if !crate::text::str_eq(lowered.as_str(), trimmed.as_str()) {
        return Err(UsernameIssue::Lowercase);
    }
    Ok(())
}

/// Trimming is idempotent.
pub proof fn lemma_trim_idempotent(s: Seq<char>)
    ensures
        spec_trim(spec_trim(s)) == spec_trim(s),
{
    let t = spec_trim(s);
    lemma_trim_ends(s);
    if t.len() > 0 {
        assert(crate::text::trim_front(t) == t);
        assert(crate::text::trim_back(t) == t);
    } else {
        assert(t =~= Seq::<char>::empty());
        assert(crate::text::trim_front(t) == t);
        assert(crate::text::trim_back(t) == t);
    }
}

/// A trimmed value neither starts nor ends with whitespace.
proof fn lemma_trim_ends(s: Seq<char>)
    ensures
        spec_trim(s).len() > 0 ==> !crate::text::is_space(spec_trim(s)[0])
            && !crate::text::is_space(spec_trim(s).last()),
{
    lemma_trim_back_keeps_head(crate::text::trim_front(s));
    lemma_trim_front_head(s);
}

/// The front-trimmed value does not start with whitespace.
proof fn lemma_trim_front_head(s: Seq<char>)
    ensures
        crate::text::trim_front(s).len() > 0 ==> !crate::text::is_space(
            crate::text::trim_front(s)[0],
        ),
    decreases s.len(),
{
    if s.len() > 0 && crate::text::is_space(s[0]) {
        lemma_trim_front_head(s.drop_first());
    }
}

/// Back-trimming keeps the first character and removes trailing spaces.
proof fn lemma_trim_back_keeps_head(s: Seq<char>)
    ensures
        crate::text::trim_back(s).len() > 0 ==> {
            &&& !crate::text::is_space(crate::text::trim_back(s).last())
            &&& crate::text::trim_back(s)[0] == s[0]
        },
    decreases s.len(),
{
    if s.len() > 0 && crate::text::is_space(s.last()) {
        lemma_trim_back_keeps_head(s.drop_last());
    }
}

/// A login name that passed validation: trimmed, lowercase, alpha-dash,
/// and between 3 and 64 characters.
#[derive(Debug, Clone, PartialEq, Eq)]
pub struct UsernameString {
    value: String,
}

impl View for UsernameString {
    type V = Seq<char>;

    closed spec fn view(&self) -> Seq<char> {
        self.value@
    }
}

impl UsernameString {
    /// The rules every held value satisfies.
    pub open spec fn wf(self) -> bool {
        &&& spec_validate_username(self@) is Ok
        &&& spec_trim(self@) == self@
        &&& 3 <= self@.len() <= 64
    }

    /// Validates and wraps a raw value; the held value is the trimmed one.
    pub fn new(raw: &str) -> (r: Result<UsernameString, UsernameIssue>)
        ensures
            match r {
                Ok(u) => u.wf() && u@ == spec_trim(raw@) && spec_validate_username(raw@) is Ok,
                Err(e) => {
                    ||| spec_validate_username(raw@) == Err::<(), UsernameIssue>(e)
                    ||| (e is Length && spec_validate_username(raw@) is Ok && !(3 <= spec_trim(
                        raw@,
                    ).len() <= 64))
                },
            },
    {
        match validate_username(raw) {
            Ok(()) => {},
            Err(e) => {
                return Err(e);
            },
        }
        let t = crate::text::trim(raw);
        let n = t.as_str().unicode_len();
        if n < 3 || n > 64 {
            return Err(UsernameIssue::Length);
        }
        proof {
            lemma_trim_idempotent(raw@);
            lemma_validate_of_trimmed(raw@);
        }
        Ok(UsernameString { value: t })
    }

    /// The held name.
    pub fn as_str(&self) -> (r: &str)
        ensures
            r@ == self@,
    {
        self.value.as_str()
    }
}

/// Validation looks only at the trimmed value.
proof fn lemma_validate_of_trimmed(s: Seq<char>)
    ensures
        spec_validate_username(spec_trim(s)) == spec_validate_username(s),
{
    lemma_trim_idempotent(s);
}

} // verus!
