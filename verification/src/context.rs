//! The per-request context: paging default, timezones, the optional actor,
//! and the unknown-filter policy. Immutable for the request's lifetime.

use vstd::prelude::*;
use crate::actor::Actor;
use crate::dates::MAX_TZ_OFFSET;
use crate::input::UnknownFilterMode;

verus! {

/// A timezone as the engine needs it: its name, and its offset east of
/// storage time in seconds. Resolving a zone name to an offset is the
/// caller's concern; fixed-offset names can be resolved with
/// [`parse_fixed_offset`].
#[derive(Debug, Clone)]
pub struct Timezone {
    /// Zone name as negotiated (for example `UTC` or `+05:30`).
    pub name: String,
    /// Seconds east of storage time.
    pub offset_secs: i64,
}

impl Timezone {
    /// Offsets stay within the real-world range.
    pub open spec fn wf(self) -> bool {
        -MAX_TZ_OFFSET <= self.offset_secs <= MAX_TZ_OFFSET
    }
}

/// The offset a fixed-offset zone name denotes: `UTC`, `Z`, or `±HH:MM`
/// within eighteen hours of zero.
pub open spec fn spec_parse_offset(s: Seq<char>) -> Option<int> {
    if s == "UTC"@ || s == "Z"@ {
        Some(0)
    } else if s.len() == 6 && (s[0] == '+' || s[0] == '-') && s[3] == ':' && spec_off_digits(s) {
        let hh = crate::dates::spec_digit(s[1]).unwrap() * 10 + crate::dates::spec_digit(
            s[2],
        ).unwrap();
        let mm = crate::dates::spec_digit(s[4]).unwrap() * 10 + crate::dates::spec_digit(
            s[5],
        ).unwrap();
        let total = hh * 3600 + mm * 60;
        if mm <= 59 && total <= MAX_TZ_OFFSET {
            if s[0] == '-' {
                Some(-total)
            } else {
                Some(total)
            }
        } else {
            None
        }
    } else {
        None
    }
}

/// The four offset positions hold digits.
pub open spec fn spec_off_digits(s: Seq<char>) -> bool {
    &&& crate::dates::spec_digit(s[1]) is Some
    &&& crate::dates::spec_digit(s[2]) is Some
    &&& crate::dates::spec_digit(s[4]) is Some
    &&& crate::dates::spec_digit(s[5]) is Some
}

/// Parses a fixed-offset zone name per [`spec_parse_offset`].
pub fn parse_fixed_offset(s: &str) -> (r: Option<i64>)
    ensures
        match r {
            Some(n) => spec_parse_offset(s@) == Some(n as int) && -MAX_TZ_OFFSET <= n
                <= MAX_TZ_OFFSET,
            None => spec_parse_offset(s@) is None,
        },
{
    proof {
        reveal_strlit("UTC");
        reveal_strlit("Z");
    }
    if crate::text::str_eq(s, "UTC") || crate::text::str_eq(s, "Z") {
        return Some(0);
    }
    let len = s.unicode_len();
    if len != 6 {
        return None;
    }
    let sign = s.get_char(0);
    if !(sign == '+' || sign == '-') || s.get_char(3) != ':' {
        return None;
    }
    let d1 = crate::dates::digit_value(s.get_char(1));
    let d2 = crate::dates::digit_value(s.get_char(2));
    let d4 = crate::dates::digit_value(s.get_char(4));
    let d5 = crate::dates::digit_value(s.get_char(5));
    match (d1, d2, d4, d5) {
        (Some(a), Some(b), Some(c), Some(d)) => {
            let hh: i64 = (a * 10 + b) as i64;
            let mm: i64 = (c * 10 + d) as i64;
            let total: i64 = hh * 3600 + mm * 60;
            if mm <= 59 && total <= MAX_TZ_OFFSET {
                if sign == '-' {
                    Some(-total)
                } else {
                    Some(total)
                }
            } else {
                None
            }
        },
        _ => None,
    }
}

/// Everything request-scoped the engine needs besides the input itself.
#[derive(Debug, Clone)]
pub struct DataTableContext {
    /// Page size applied when a request names none.
    pub default_per_page: i64,
    /// The deployment's storage-facing timezone.
    pub app_timezone: Timezone,
    /// The requesting user's timezone, when negotiated from headers.
    pub user_timezone: Option<Timezone>,
    /// The authenticated actor, if the request carried a valid token.
    pub actor: Option<Actor>,
    /// Policy for unrecognised filter keys.
    pub unknown_filter_mode: UnknownFilterMode,
}

impl DataTableContext {
    /// Sane paging default, real offsets, and a well-formed actor.
    pub open spec fn wf(self) -> bool {
        &&& 1 <= self.default_per_page <= crate::MAX_PER_PAGE
        &&& self.app_timezone.wf()
        &&& match self.user_timezone {
            Some(t) => t.wf(),
            None => true,
        }
        &&& match self.actor {
            Some(a) => a.wf(),
            None => true,
        }
    }

    /// The effective offset: the user's zone, falling back to the app zone.
    pub open spec fn spec_tz_offset(self) -> int {
        match self.user_timezone {
            Some(t) => t.offset_secs as int,
            None => self.app_timezone.offset_secs as int,
        }
    }

    /// The effective offset: the user's zone, falling back to the app zone.
    pub fn tz_offset(&self) -> (r: i64)
        ensures
            r == self.spec_tz_offset(),
    {
        match &self.user_timezone {
            Some(t) => t.offset_secs,
            None => self.app_timezone.offset_secs,
        }
    }
}

} // verus!
