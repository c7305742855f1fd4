//! Pagination: the page shape returned by every listing, and the slicing
//! arithmetic behind it.
//!
//! `last_page` is the ceiling of `total / per_page`; asking for a page past
//! it yields an empty page with the total unchanged, never an error.

use vstd::prelude::*;

verus! {

/// One page of query results together with its aggregate counts.
#[derive(Debug, Clone)]
pub struct Page<T> {
    /// The rows of this page, in result order.
    pub data: Vec<T>,
    /// How many rows match the query in total.
    pub total: i64,
    /// The page size the query was sliced with.
    pub per_page: i64,
    /// The 1-based page that was requested.
    pub current_page: i64,
    /// The last page that holds any data: `ceil(total / per_page)`.
    pub last_page: i64,
}

/// Ceiling division on nonnegative counts.
pub open spec fn spec_ceil_div(total: int, per: int) -> int {
    (total + per - 1) / per
}

/// The slice of `rows` that page `page` shows at size `per`:
/// row indices `[(page-1)*per, min((page-1)*per + per, total))`.
pub open spec fn spec_page_slice<T>(rows: Seq<T>, page: int, per: int) -> Seq<T> {
    let start = (page - 1) * per;
    if start >= rows.len() {
        Seq::empty()
    } else if start + per >= rows.len() {
        rows.subrange(start, rows.len() as int)
    } else {
        rows.subrange(start, start + per)
    }
}

proof fn lemma_mul_monotone(a: int, b: int, c: int)
    requires
        a <= b,
        c >= 0,
    ensures
        a * c <= b * c,
{
    broadcast use vstd::arithmetic::mul::lemma_mul_inequality;

}

proof fn lemma_page_in_range(total: int, per: int, page: int)
    requires
        per >= 1,
        total >= 0,
        1 <= page <= spec_ceil_div(total, per),
    ensures
        (page - 1) * per < total,
        (page - 1) * per <= (spec_ceil_div(total, per) - 1) * per,
{
    let last = spec_ceil_div(total, per);
    assert(page - 1 <= last - 1);
    lemma_mul_monotone(page - 1, last - 1, per);
    // (last - 1) * per < total because last is the ceiling
    assert((last - 1) * per < total) by {
        let q = (total + per - 1) / per;
        vstd::arithmetic::div_mod::lemma_fundamental_div_mod(total + per - 1, per);
        vstd::arithmetic::div_mod::lemma_mod_bound(total + per - 1, per);
        assert(total + per - 1 == per * q + (total + per - 1) % per);
        assert((q - 1) * per == per * q - per) by {
            broadcast use vstd::arithmetic::mul::lemma_mul_is_distributive_sub_other_way;
            broadcast use vstd::arithmetic::mul::lemma_mul_is_commutative;

        }
    }
}

/// Slices `rows` into the requested page and fills in the aggregate counts.
///
/// Requesting a page past `last_page` returns an empty `data` while `total`
/// still reports every matching row.
pub fn paginate<T>(rows: Vec<T>, page: i64, per_page: i64) -> (r: Page<T>)
    requires
        page >= 1,
        per_page >= 1,
        rows@.len() + per_page <= i64::MAX,
    ensures
        r.total == rows@.len(),
        r.per_page == per_page,
        r.current_page == page,
        r.last_page == spec_ceil_div(rows@.len() as int, per_page as int),
        r.data@ == spec_page_slice(rows@, page as int, per_page as int),
        page > r.last_page ==> r.data@.len() == 0,
{
    let ghost orig = rows@;
    let total: i64 = rows.len() as i64;
    let last_page: i64 = (total + per_page - 1) / per_page;
    let mut rows = rows;
    let data: Vec<T> = if page > last_page {
        proof {
            if ((page - 1) * (per_page as int)) < orig.len() {
                assert(page - 1 >= last_page);
                lemma_mul_monotone(last_page as int, page - 1, per_page as int);
                assert(last_page * per_page >= total) by {
                    vstd::arithmetic::div_mod::lemma_fundamental_div_mod(
                        total + per_page - 1,
                        per_page as int,
                    );
                    vstd::arithmetic::div_mod::lemma_mod_bound(
                        total + per_page - 1,
                        per_page as int,
                    );
                    broadcast use vstd::arithmetic::mul::lemma_mul_is_commutative;

                }
            }
            assert(spec_page_slice(orig, page as int, per_page as int) =~= Seq::<T>::empty());
        }
        Vec::new()
    } else {
        proof {
            lemma_page_in_range(total as int, per_page as int, page as int);
        }
        let start: i64 = (page - 1) * per_page;
        let mut tail = rows.split_off(start as usize);
        if per_page < tail.len() as i64 {
            tail.truncate(per_page as usize);
        }
        proof {
            assert(spec_page_slice(orig, page as int, per_page as int) =~= tail@);
        }
        tail
    };
    Page { data, total, per_page, current_page: page, last_page }
}

} // verus!
