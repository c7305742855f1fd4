//! Evaluation of query plans over admin rows held in memory: predicate
//! semantics, filtering, and sorting by the declared sortable fields.

use vstd::prelude::*;
use vstd::multiset::Multiset;
use crate::model::{AdminRecord, AttrValue};
use crate::query::{preds_view, Predicate, PredicateV, Value, ValueV};
use crate::input::SortDirection;
use crate::text::{contains_sub, spec_lower};

verus! {

impl Clone for AttrValue {
    /// Structural copy.
    fn clone(&self) -> (r: Self)
        ensures
            r == *self,
    {
        match self {
            AttrValue::Str(s) => AttrValue::Str(s.clone()),
            AttrValue::Int(n) => AttrValue::Int(*n),
            AttrValue::Bool(b) => AttrValue::Bool(*b),
            AttrValue::Null => AttrValue::Null,
        }
    }
}

/// The string-valued column named `f` of a row, if any.
pub open spec fn spec_str_field(f: Seq<char>, row: AdminRecord) -> Option<Seq<char>> {
    if f == "username"@ {
        Some(row.username@)
    } else if f == "email"@ {
        match row.email {
            Some(e) => Some(e@),
            None => None,
        }
    } else if f == "name"@ {
        Some(row.name@)
    } else if f == "admin_type"@ {
        Some(row.admin_type.spec_str())
    } else {
        None
    }
}

/// The integer-valued column named `f` of a row, if any.
pub open spec fn spec_int_field(f: Seq<char>, row: AdminRecord) -> Option<int> {
    if f == "id"@ {
        Some(row.id as int)
    } else if f == "created_at"@ {
        Some(row.created_at as int)
    } else if f == "updated_at"@ {
        Some(row.updated_at as int)
    } else {
        None
    }
}

/// The string-valued column named `f` of a row, if any.
pub fn str_field<'a>(f: &str, row: &'a AdminRecord) -> (r: Option<&'a str>)
    ensures
        match r {
            Some(s) => spec_str_field(f@, *row) == Some(s@),
            None => spec_str_field(f@, *row) is None,
        },
{
    proof {
        reveal_strlit("username");
        reveal_strlit("email");
        reveal_strlit("name");
        reveal_strlit("admin_type");
    }
    if crate::text::str_eq(f, "username") {
        Some(row.username.as_str())
    } else if crate::text::str_eq(f, "email") {
        match &row.email {
            Some(e) => Some(e.as_str()),
            None => None,
        }
    } else if crate::text::str_eq(f, "name") {
        Some(row.name.as_str())
    } else if crate::text::str_eq(f, "admin_type") {
        Some(row.admin_type.as_str())
    } else {
        None
    }
}

/// The integer-valued column named `f` of a row, if any.
pub fn int_field(f: &str, row: &AdminRecord) -> (r: Option<i64>)
    ensures
        match r {
            Some(n) => spec_int_field(f@, *row) == Some(n as int),
            None => spec_int_field(f@, *row) is None,
        },
{
    proof {
        reveal_strlit("id");
        reveal_strlit("created_at");
        reveal_strlit("updated_at");
    }
    if crate::text::str_eq(f, "id") {
        Some(row.id)
    } else if crate::text::str_eq(f, "created_at") {
        Some(row.created_at)
    } else if crate::text::str_eq(f, "updated_at") {
        Some(row.updated_at)
    } else {
        None
    }
}

/// Case-insensitive containment of `v` in the column `f`.
pub open spec fn spec_like(f: Seq<char>, v: Seq<char>, row: AdminRecord) -> bool {
    match spec_str_field(f, row) {
        Some(s) => contains_sub(spec_lower(s), spec_lower(v)),
        None => false,
    }
}

/// What one predicate means on one row.
pub open spec fn spec_eval(p: PredicateV, cols: Seq<String>, row: AdminRecord) -> bool {
    match p {
        PredicateV::Eq(f, v) => match v {
            ValueV::Str(s) => spec_str_field(f, row) == Some(s),
            ValueV::Int(n) => spec_int_field(f, row) == Some(n),
        },
        PredicateV::Ne(f, v) => match v {
            ValueV::Str(s) => match spec_str_field(f, row) {
                Some(x) => x != s,
                None => false,
            },
            ValueV::Int(n) => match spec_int_field(f, row) {
                Some(x) => x != n,
                None => false,
            },
        },
        PredicateV::Like(f, v) => spec_like(f, v, row),
        PredicateV::DateGe(f, b) => match spec_int_field(f, row) {
            Some(x) => x >= b,
            None => false,
        },
        PredicateV::DateLe(f, b) => match spec_int_field(f, row) {
            Some(x) => x <= b,
            None => false,
        },
        PredicateV::Search(v) => spec_search(cols, v, row),
    }
}

/// Free-text search: some listed column contains the value.
pub open spec fn spec_search(cols: Seq<String>, v: Seq<char>, row: AdminRecord) -> bool {
    exists|i: int| 0 <= i < cols.len() && #[trigger] spec_like(cols[i]@, v, row)
}

/// Executable free-text search matching [`spec_search`].
pub fn eval_search(cols: &Vec<String>, v: &str, row: &AdminRecord) -> (r: bool)
    ensures
        r == spec_search(cols@, v@, *row),
{
    let mut i: usize = 0;
    while i < cols.len()
        invariant
            0 <= i <= cols@.len(),
            forall|j: int| 0 <= j < i ==> !#[trigger] spec_like(cols@[j]@, v@, *row),
        decreases cols@.len() - i,
    {
        if eval_like(cols[i].as_str(), v, row) {
            assert(spec_like(cols@[i as int]@, v@, *row));
            return true;
        }
        i = i + 1;
    }
    false
}

/// Executable case-insensitive containment matching [`spec_like`].
pub fn eval_like(f: &str, v: &str, row: &AdminRecord) -> (r: bool)
    ensures
        r == spec_like(f@, v@, *row),
{
    match str_field(f, row) {
        Some(s) => {
            let hay = crate::text::to_ascii_lower(s);
            let needle = crate::text::to_ascii_lower(v);
            crate::text::str_contains(hay.as_str(), needle.as_str())
        },
        None => false,
    }
}

/// Executable predicate evaluation matching [`spec_eval`].
pub fn eval_predicate(p: &Predicate, cols: &Vec<String>, row: &AdminRecord) -> (r: bool)
    ensures
        r == spec_eval(p@, cols@, *row),
{
    match p {
        Predicate::Eq(f, v) => match v {
            Value::Str(s) => match str_field(f.as_str(), row) {
                Some(x) => crate::text::str_eq(x, s.as_str()),
                None => false,
            },
            Value::Int(n) => match int_field(f.as_str(), row) {
                Some(x) => x == *n,
                None => false,
            },
        },
        Predicate::Ne(f, v) => match v {
            Value::Str(s) => match str_field(f.as_str(), row) {
                Some(x) => !crate::text::str_eq(x, s.as_str()),
                None => false,
            },
            Value::Int(n) => match int_field(f.as_str(), row) {
                Some(x) => x != *n,
                None => false,
            },
        },
        Predicate::Like(f, v) => eval_like(f.as_str(), v.as_str(), row),
        Predicate::DateGe(f, b) => match int_field(f.as_str(), row) {
            Some(x) => x >= *b,
            None => false,
        },
        Predicate::DateLe(f, b) => match int_field(f.as_str(), row) {
            Some(x) => x <= *b,
            None => false,
        },
        Predicate::Search(v) => eval_search(cols, v.as_str(), row),
    }
}

/// A row matches a plan when every predicate holds.
pub open spec fn spec_matches(preds: Seq<PredicateV>, cols: Seq<String>, row: AdminRecord) -> bool {
    forall|i: int| 0 <= i < preds.len() ==> #[trigger] spec_eval(preds[i], cols, row)
}

/// Executable conjunction matching [`spec_matches`].
pub fn matches_all(preds: &Vec<Predicate>, cols: &Vec<String>, row: &AdminRecord) -> (r: bool)
    ensures
        r == spec_matches(preds_view(preds@), cols@, *row),
{
    let ghost pv = preds_view(preds@);
    let mut i: usize = 0;
    while i < preds.len()
        invariant
            pv == preds_view(preds@),
            pv.len() == preds@.len(),
            0 <= i <= preds@.len(),
            forall|j: int| 0 <= j < i ==> #[trigger] spec_eval(pv[j], cols@, *row),
        decreases preds@.len() - i,
    {
        if !eval_predicate(&preds[i], cols, row) {
            assert(!spec_eval(pv[i as int], cols@, *row));
            return false;
        }
        i = i + 1;
    }
    true
}

/// The rows of `rows` that match `preds`, in their original order.
pub open spec fn spec_filter(
    rows: Seq<AdminRecord>,
    preds: Seq<PredicateV>,
    cols: Seq<String>,
) -> Seq<AdminRecord>
    decreases rows.len(),
{
    if rows.len() == 0 {
        Seq::empty()
    } else {
        let rest = spec_filter(rows.drop_last(), preds, cols);
        if spec_matches(preds, cols, rows.last()) {
            rest.push(rows.last())
        } else {
            rest
        }
    }
}

/// Keeps the rows matching every predicate, preserving their order.
pub fn filter_rows(rows: Vec<AdminRecord>, preds: &Vec<Predicate>, cols: &Vec<String>) -> (r:
    Vec<AdminRecord>)
    ensures
        r@ == spec_filter(rows@, preds_view(preds@), cols@),
{
    let ghost pv = preds_view(preds@);
    let ghost orig = rows@;
    let mut rows = rows;
    let mut tmp: Vec<AdminRecord> = Vec::new();
    proof {
        assert(orig.subrange(0, orig.len() as int) =~= orig);
        assert(spec_filter(orig, pv, cols@) =~= spec_filter(orig, pv, cols@) + tmp@.reverse());
    }
    while rows.len() > 0
        invariant
            pv == preds_view(preds@),
            rows@.len() <= orig.len(),
            rows@ =~= orig.subrange(0, rows@.len() as int),
            spec_filter(orig, pv, cols@) =~= spec_filter(
                orig.subrange(0, rows@.len() as int),
                pv,
                cols@,
            ) + tmp@.reverse(),
        decreases rows@.len(),
    {
        let ghost n = rows@.len() as int;
        proof {
            assert(orig.subrange(0, n).drop_last() =~= orig.subrange(0, n - 1));
        }
        let r = match rows.pop() {
            Some(r) => r,
            None => {
                proof {
                    assert(false);
                }
                return tmp;
            },
        };
        if matches_all(preds, cols, &r) {
            let ghost before = tmp@;
            tmp.push(r);
            proof {
                assert(tmp@.reverse() =~= seq![r] + before.reverse());
                assert(spec_filter(orig.subrange(0, n), pv, cols@) + before.reverse()
                    =~= spec_filter(orig.subrange(0, n - 1), pv, cols@) + tmp@.reverse());
            }
        }
    }
    let mut out: Vec<AdminRecord> = Vec::new();
    let ghost flt = spec_filter(orig, pv, cols@);
    proof {
        assert(orig.subrange(0, 0) =~= Seq::<AdminRecord>::empty());
        assert(flt =~= out@ + tmp@.reverse());
    }
    while tmp.len() > 0
        invariant
            flt =~= out@ + tmp@.reverse(),
        decreases tmp@.len(),
    {
        let ghost before = tmp@;
        let r = match tmp.pop() {
            Some(r) => r,
            None => {
                proof {
                    assert(false);
                }
                return out;
            },
        };
        out.push(r);
        proof {
            assert(before.reverse() =~= seq![r] + tmp@.reverse());
        }
    }
    proof {
        assert(flt =~= out@);
    }
    out
}

/// Every row a filter keeps satisfies the predicates, and it keeps exactly
/// the matching rows of its input.
pub proof fn lemma_filter_complete(
    rows: Seq<AdminRecord>,
    preds: Seq<PredicateV>,
    cols: Seq<String>,
)
    ensures
        forall|i: int|
            0 <= i < spec_filter(rows, preds, cols).len() ==> spec_matches(
                preds,
                cols,
                #[trigger] spec_filter(rows, preds, cols)[i],
            ),
        (forall|i: int| 0 <= i < rows.len() ==> !spec_matches(preds, cols, #[trigger] rows[i]))
            ==> spec_filter(rows, preds, cols).len() == 0,
    decreases rows.len(),
{
    if rows.len() > 0 {
        lemma_filter_complete(rows.drop_last(), preds, cols);
        let flt = spec_filter(rows, preds, cols);
        let rest = spec_filter(rows.drop_last(), preds, cols);
        assert forall|i: int| 0 <= i < flt.len() implies spec_matches(preds, cols, flt[i]) by {
            if spec_matches(preds, cols, rows.last()) {
                assert(flt == rest.push(rows.last()));
                if i < rest.len() {
                    assert(flt[i] == rest[i]);
                } else {
                    assert(flt[i] == rows.last());
                }
            } else {
                assert(flt == rest);
            }
        }
        if forall|i: int| 0 <= i < rows.len() ==> !spec_matches(preds, cols, #[trigger] rows[i]) {
            assert forall|i: int|
                0 <= i < rows.drop_last().len() implies !spec_matches(
                preds,
                cols,
                #[trigger] rows.drop_last()[i],
            ) by {
                assert(rows.drop_last()[i] == rows[i]);
            }
            assert(!spec_matches(preds, cols, rows.last()));
            assert(flt.len() == 0);
        }
    }
}

/// A filter never yields more rows than it was given.
pub proof fn lemma_filter_len(rows: Seq<AdminRecord>, preds: Seq<PredicateV>, cols: Seq<String>)
    ensures
        spec_filter(rows, preds, cols).len() <= rows.len(),
    decreases rows.len(),
{
    if rows.len() > 0 {
        lemma_filter_len(rows.drop_last(), preds, cols);
    }
}

/// The integer key a plan sorts on, when the field is sortable.
pub open spec fn spec_sort_key(f: Seq<char>, row: AdminRecord) -> int {
    match spec_int_field(f, row) {
        Some(n) => n,
        None => 0,
    }
}

/// `a` may stand before `b` under the given sort.
pub open spec fn spec_in_order(f: Seq<char>, dir: SortDirection, a: AdminRecord, b: AdminRecord) -> bool {
    match dir {
        SortDirection::Asc => spec_sort_key(f, a) <= spec_sort_key(f, b),
        SortDirection::Desc => spec_sort_key(f, a) >= spec_sort_key(f, b),
    }
}

/// Executable order test matching [`spec_in_order`].
pub fn in_order(f: &str, dir: SortDirection, a: &AdminRecord, b: &AdminRecord) -> (r: bool)
    ensures
        r == spec_in_order(f@, dir, *a, *b),
{
    let ka = match int_field(f, a) {
        Some(n) => n,
        None => 0,
    };
    let kb = match int_field(f, b) {
        Some(n) => n,
        None => 0,
    };
    match dir {
        SortDirection::Asc => ka <= kb,
        SortDirection::Desc => ka >= kb,
    }
}

/// Rows stand in the given order throughout.
pub open spec fn spec_sorted_by(f: Seq<char>, dir: SortDirection, s: Seq<AdminRecord>) -> bool {
    forall|i: int, j: int|
        0 <= i <= j < s.len() ==> spec_in_order(f, dir, #[trigger] s[i], #[trigger] s[j])
}

/// `data` is the requested page of some reordering of `flt` that holds
/// exactly the same rows and stands sorted by the given field.
pub open spec fn spec_sorted_page_of(
    flt: Seq<AdminRecord>,
    f: Seq<char>,
    dir: SortDirection,
    data: Seq<AdminRecord>,
    page: int,
    per: int,
) -> bool {
    exists|sorted: Seq<AdminRecord>|
        {
            &&& (#[trigger] sorted.to_multiset()) == flt.to_multiset()
            &&& sorted.len() == flt.len()
            &&& spec_sorted_by(f, dir, sorted)
            &&& data == crate::page::spec_page_slice(sorted, page, per)
        }
}

/// Exhibiting a reordering establishes [`spec_sorted_page_of`].
pub proof fn lemma_sorted_page_intro(
    w: Seq<AdminRecord>,
    flt: Seq<AdminRecord>,
    f: Seq<char>,
    dir: SortDirection,
    data: Seq<AdminRecord>,
    page: int,
    per: int,
)
    requires
        w.to_multiset() == flt.to_multiset(),
        w.len() == flt.len(),
        spec_sorted_by(f, dir, w),
        data == crate::page::spec_page_slice(w, page, per),
    ensures
        spec_sorted_page_of(flt, f, dir, data, page, per),
{
    assert((w.to_multiset()) == flt.to_multiset());
}

/// Reorders rows by the sort key; the result holds exactly the same rows.
///
/// Rows with equal keys may come out in either order, as a record store
/// would also leave open.
pub fn sort_rows(rows: Vec<AdminRecord>, f: &str, dir: SortDirection) -> (r: Vec<AdminRecord>)
    ensures
        r@.to_multiset() == rows@.to_multiset(),
        r@.len() == rows@.len(),
        forall|i: int, j: int|
            0 <= i <= j < r@.len() ==> spec_in_order(f@, dir, #[trigger] r@[i], #[trigger] r@[j]),
{
    broadcast use vstd::seq_lib::group_to_multiset_ensures;

    let mut rest = rows;
    let mut out: Vec<AdminRecord> = Vec::new();
    let ghost orig = rest@;
    while rest.len() > 0
        invariant
            out@.to_multiset().add(rest@.to_multiset()) =~= orig.to_multiset(),
            out@.len() + rest@.len() == orig.len(),
            forall|i: int, j: int|
                0 <= i <= j < out@.len() ==> spec_in_order(
                    f@,
                    dir,
                    #[trigger] out@[i],
                    #[trigger] out@[j],
                ),
            forall|i: int, j: int|
                0 <= i < out@.len() && 0 <= j < rest@.len() ==> spec_in_order(
                    f@,
                    dir,
                    #[trigger] out@[i],
                    #[trigger] rest@[j],
                ),
        decreases rest@.len(),
    {
        broadcast use vstd::seq_lib::group_to_multiset_ensures;

        let mut best: usize = 0;
        let mut k: usize = 1;
        while k < rest.len()
            invariant
                0 <= best < k <= rest@.len(),
                rest@.len() > 0,
                forall|j: int|
                    0 <= j < k ==> spec_in_order(
                        f@,
                        dir,
                        rest@[best as int],
                        #[trigger] rest@[j],
                    ),
            decreases rest@.len() - k,
        {
            if !in_order(f, dir, &rest[best], &rest[k]) {
                best = k;
                proof {
                    assert forall|j: int| 0 <= j < k + 1 implies spec_in_order(
                        f@,
                        dir,
                        rest@[best as int],
                        #[trigger] rest@[j],
                    ) by {
                        match dir {
                            SortDirection::Asc => {},
                            SortDirection::Desc => {},
                        }
                    }
                }
            }
            k = k + 1;
        }
        let picked = rest.remove(best);
        out.push(picked);
    }
    proof {
        assert(rest@.to_multiset() =~= Multiset::<AdminRecord>::empty());
        assert(out@.to_multiset() =~= orig.to_multiset());
    }
    out
}

} // verus!
