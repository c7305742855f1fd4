//! Small self-contained helpers: environment-value interpretation for the
//! bootstrap seeder and SQL placeholder renumbering.

use vstd::prelude::*;
use crate::text::{is_blank, spec_norm, spec_trim};

verus! {

/// The value names truth: one of `1`, `true`, `yes`, `on`, `y`, after
/// trimming and lowercasing.
pub open spec fn spec_truthy(s: Seq<char>) -> bool {
    spec_norm(s) == "1"@ || spec_norm(s) == "true"@ || spec_norm(s) == "yes"@ || spec_norm(s)
        == "on"@ || spec_norm(s) == "y"@
}

/// Whether a raw flag value names truth.
pub fn is_truthy(raw: &str) -> (r: bool)
    ensures
        r == spec_truthy(raw@),
{
    let norm = crate::text::normalize(raw);
    crate::text::str_eq(norm.as_str(), "1") || crate::text::str_eq(norm.as_str(), "true")
        || crate::text::str_eq(norm.as_str(), "yes") || crate::text::str_eq(norm.as_str(), "on")
        || crate::text::str_eq(norm.as_str(), "y")
}

/// The trimmed value, or the default when the value is absent or blank.
pub fn nonblank_or(raw: Option<&str>, default: &str) -> (r: String)
    ensures
        match raw {
            Some(s) => if is_blank(s@) {
                r@ == default@
            } else {
                r@ == spec_trim(s@)
            },
            None => r@ == default@,
        },
{
    match raw {
        Some(s) => {
            let t = crate::text::trim(s);
            if t.as_str().unicode_len() > 0 {
                t
            } else {
                String::from_str(default)
            }
        },
        None => String::from_str(default),
    }
}

/// Whether the bootstrap seeder must be skipped: only in a production
/// environment, and only when the opt-in flag does not name truth.
pub fn should_skip_bootstrap(app_env: &str, opt_in_flag: &str) -> (r: bool)
    ensures
        r == (spec_norm(app_env@) == "production"@ && !spec_truthy(opt_in_flag@)),
{
    proof {
        reveal_strlit("production");
    }
    let env = crate::text::normalize(app_env);
    if !crate::text::str_eq(env.as_str(), "production") {
        return false;
    }
    !is_truthy(opt_in_flag)
}

/// An ASCII digit.
pub open spec fn is_digit(c: char) -> bool {
    48 <= c as u32 <= 57
}

/// Length of the digit run starting at `i`.
pub open spec fn run_len(s: Seq<char>, i: int) -> int
    decreases s.len() - i,
{
    if 0 <= i < s.len() && is_digit(s[i]) {
        1 + run_len(s, i + 1)
    } else {
        0
    }
}

/// Value of the `n` digits starting at `i`, most significant first.
pub open spec fn run_val(s: Seq<char>, i: int, n: int) -> int
    decreases n,
{
    if n <= 0 {
        0
    } else {
        let d = s[i + n - 1] as u32;
        run_val(s, i, n - 1) * 10 + (if 48 <= d <= 57 {
            d - 48
        } else {
            0
        })
    }
}

/// The decimal digits of a nonnegative number.
pub open spec fn spec_decimal(n: int) -> Seq<char>
    decreases n,
{
    if n < 10 {
        seq![((48 + n) as u8) as char]
    } else {
        spec_decimal(n / 10).push(((48 + n % 10) as u8) as char)
    }
}

/// Renders a nonnegative number in decimal.
pub fn format_u64(n: u64) -> (r: String)
    ensures
        r@ == spec_decimal(n as int),
    decreases n,
{
    if n < 10 {
        let mut s = String::new();
        crate::text::push_char(&mut s, ((48 + n as u8)) as char);
        proof {
            assert(s@ =~= spec_decimal(n as int));
        }
        s
    } else {
        let mut s = format_u64(n / 10);
        crate::text::push_char(&mut s, ((48 + (n % 10) as u8)) as char);
        s
    }
}

/// What a placeholder string renumbers to: every `$k` becomes
/// `$(start + k - 1)`, where a `$` followed by no digits counts as `$0`;
/// everything else is copied unchanged.
pub open spec fn spec_renumber(s: Seq<char>, start: int, i: int) -> Seq<char>
    decreases s.len() - i,
        via spec_renumber_decreases
{
    if i >= s.len() || i < 0 {
        Seq::empty()
    } else if s[i] == '$' {
        let n = run_len(s, i + 1);
        let v = run_val(s, i + 1, n);
        seq!['$'] + spec_decimal(start + v - 1) + spec_renumber(s, start, i + 1 + n)
    } else {
        seq![s[i]] + spec_renumber(s, start, i + 1)
    }
}

#[via_fn]
proof fn spec_renumber_decreases(s: Seq<char>, start: int, i: int) {
    if 0 <= i < s.len() && s[i] == '$' {
        lemma_run_len_bound(s, i + 1);
    }
}

/// Every digit run after a `$` keeps the shifted index within bounds.
pub open spec fn renumber_ok(s: Seq<char>, start: int) -> bool {
    forall|i: int|
        0 <= i < s.len() && s[i] == '$' ==> start + #[trigger] run_val(s, i + 1, run_len(s, i + 1))
            <= u32::MAX
}

/// A digit-run prefix never exceeds the full run's value.
proof fn lemma_run_val_monotone(s: Seq<char>, i: int, k: int, n: int)
    requires
        0 <= k <= n,
    ensures
        run_val(s, i, k) <= run_val(s, i, n),
        run_val(s, i, k) >= 0,
    decreases n,
{
    if n > 0 {
        if k == n {
            lemma_run_val_monotone(s, i, k - 1, n - 1);
        } else {
            lemma_run_val_monotone(s, i, k, n - 1);
        }
        assert(run_val(s, i, n - 1) * 10 >= run_val(s, i, n - 1)) by (nonlinear_arith)
            requires
                run_val(s, i, n - 1) >= 0,
        ;
    }
}

/// Scans the digit run at `i`, returning its length and value.
fn scan_digits(s: &str, i: usize, bound: u64) -> (r: (usize, u64))
    requires
        i <= s@.len(),
        run_val(s@, i as int, run_len(s@, i as int)) <= bound,
        bound <= u32::MAX,
    ensures
        r.0 == run_len(s@, i as int),
        i + r.0 <= s@.len(),
        r.1 == run_val(s@, i as int, r.0 as int),
{
    let len = s.unicode_len();
    let ghost total = run_len(s@, i as int);
    proof {
        lemma_run_len_bound(s@, i as int);
    }
    let mut k: usize = 0;
    let mut acc: u64 = 0;
    loop
        invariant
            i + k <= s@.len(),
            len == s@.len(),
            0 <= k <= total,
            total == run_len(s@, i as int),
            run_val(s@, i as int, total) <= bound <= u32::MAX,
            acc == run_val(s@, i as int, k as int),
            i + total <= s@.len(),
        ensures
            k == total,
            acc == run_val(s@, i as int, k as int),
        decreases total - k,
    {
        proof {
            lemma_run_len_step(s@, i as int, k as int);
        }
        if i + k >= len {
            break ;
        }
        let c = s.get_char(i + k);
        let n: u32 = c as u32;
        if !(48 <= n && n <= 57) {
            break ;
        }
        proof {
            lemma_run_val_monotone(s@, i as int, k as int + 1, total);
            assert(run_val(s@, i as int, k as int + 1) == acc * 10 + (n - 48));
        }
        acc = acc * 10 + ((n - 48) as u64);
        k = k + 1;
    }
    (k, acc)
}

/// A digit run never runs past the end of the string.
proof fn lemma_run_len_bound(s: Seq<char>, i: int)
    requires
        0 <= i <= s.len(),
    ensures
        run_len(s, i) >= 0,
        i + run_len(s, i) <= s.len(),
    decreases s.len() - i,
{
    if i < s.len() && is_digit(s[i]) {
        lemma_run_len_bound(s, i + 1);
    }
}

/// Inside a digit run, the run continues exactly while digits do.
proof fn lemma_run_len_step(s: Seq<char>, i: int, k: int)
    requires
        0 <= i,
        0 <= k <= run_len(s, i),
        i + run_len(s, i) <= s.len(),
    ensures
        k < run_len(s, i) ==> i + k < s.len() && is_digit(s[i + k]),
        k == run_len(s, i) ==> (i + k >= s.len() || !is_digit(s[i + k])),
    decreases k,
{
    if k > 0 {
        assert(run_len(s, i) > 0);
        assert(is_digit(s[i]) && run_len(s, i) == 1 + run_len(s, i + 1));
        lemma_run_len_step(s, i + 1, k - 1);
    } else {
        if i < s.len() && is_digit(s[i]) {
            assert(run_len(s, i) == 1 + run_len(s, i + 1));
            lemma_run_len_bound(s, i + 1);
        }
    }
}

/// Renumbers SQL positional placeholders: `$k` becomes `$(start + k - 1)`.
///
/// A `$` followed by no digits counts as `$0`, so `start` must be at least
/// 1; the shifted indices must fit the machine (see [`renumber_ok`]).
pub fn renumber_placeholders(sql: &str, start: usize) -> (r: String)
    requires
        1 <= start <= u32::MAX,
        renumber_ok(sql@, start as int),
    ensures
        r@ == spec_renumber(sql@, start as int, 0),
{
    let len = sql.unicode_len();
    let mut out = String::new();
    let mut i: usize = 0;
    while i < len
        invariant
            1 <= start <= u32::MAX,
            renumber_ok(sql@, start as int),
            len == sql@.len(),
            0 <= i <= len,
            spec_renumber(sql@, start as int, 0) =~= out@ + spec_renumber(
                sql@,
                start as int,
                i as int,
            ),
        decreases len - i,
    {
        let ghost before = out@;
        let c = sql.get_char(i);
        if c == '$' {
            proof {
                lemma_run_len_bound(sql@, i as int + 1);
                assert(run_val(
                    sql@,
                    i as int + 1,
                    run_len(sql@, i as int + 1),
                ) + start <= u32::MAX);
            }
            crate::text::push_char(&mut out, '$');
            let (n, v) = scan_digits(sql, i + 1, u32::MAX as u64);
            let shifted: u64 = (start as u64) + v - 1;
            let dec = format_u64(shifted);
            out.append(dec.as_str());
            proof {
                assert(spec_renumber(sql@, start as int, i as int) =~= seq!['$'] + spec_decimal(
                    (start + v) as int - 1,
                ) + spec_renumber(sql@, start as int, i as int + 1 + n));
                assert(out@ =~= before + (seq!['$'] + dec@));
                assert(before + (seq!['$'] + spec_decimal((start + v) as int - 1)) + spec_renumber(
                    sql@,
                    start as int,
                    i as int + 1 + n,
                ) =~= out@ + spec_renumber(sql@, start as int, i as int + 1 + n));
            }
            i = i + 1 + n;
        } else {
            crate::text::push_char(&mut out, c);
            proof {
                assert(spec_renumber(sql@, start as int, i as int) =~= seq![sql@[i as int]]
                    + spec_renumber(sql@, start as int, i as int + 1));
                assert(out@ =~= before.push(sql@[i as int]));
            }
            i = i + 1;
        }
    }
    proof {
        assert(spec_renumber(sql@, start as int, len as int) =~= Seq::<char>::empty());
        assert(out@ + Seq::<char>::empty() =~= out@);
    }
    out
}

} // verus!
