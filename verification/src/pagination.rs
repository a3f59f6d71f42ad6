//! Page/per_page arithmetic shared by every list endpoint.
//!
//! A caller supplies a 1-indexed `page` and a positive `per_page`; invalid
//! values are clamped to the smallest valid ones rather than rejected, so
//! pagination always produces a well-formed (if degenerate) result.
//! `offset = (page - 1) * per_page`, `limit = per_page`, and
//! `total_page = ceil(total / per_page)` with `total_page = 0` when the
//! total is zero.

use crate::envelope::DefaultData;
use crate::state::{descriptors_match, StateDescribe, StateDescriptor};
use vstd::prelude::*;

verus! {

/// Smallest valid page is 1; anything below is clamped to it.
pub open spec fn spec_clamped_page(page: int) -> int {
    if page < 1 {
        1
    } else {
        page
    }
}

/// Smallest valid page size is 1; anything below is clamped to it.
pub open spec fn spec_clamped_per_page(per_page: int) -> int {
    if per_page < 1 {
        1
    } else {
        per_page
    }
}

/// Number of rows skipped before the requested page starts.
pub open spec fn spec_offset(page: int, per_page: int) -> int {
    (spec_clamped_page(page) - 1) * spec_clamped_per_page(per_page)
}

/// `ceil(total / per_page)` over the clamped page size; 0 when nothing
/// matched (or the count is negative, which a row count never is).
pub open spec fn spec_total_pages(total: int, per_page: int) -> int {
    let pp = spec_clamped_per_page(per_page);
    if total <= 0 {
        0
    } else {
        (total + pp - 1) / pp
    }
}

/// The slice of `s` shown on `page`: rows `offset .. offset + per_page`,
/// shortened at the end of `s`, empty once the offset runs past it.
pub open spec fn spec_page_slice<T>(s: Seq<T>, page: int, per_page: int) -> Seq<T> {
    let off = spec_offset(page, per_page);
    let pp = spec_clamped_per_page(per_page);
    if off >= s.len() {
        Seq::empty()
    } else if off + pp <= s.len() {
        s.subrange(off, off + pp)
    } else {
        s.subrange(off, s.len() as int)
    }
}

pub fn clamped_page(page: i64) -> (r: i64)
    ensures
        r == spec_clamped_page(page as int),
{
    if page < 1 {
        1
    } else {
        page
    }
}

pub fn clamped_per_page(per_page: i64) -> (r: i64)
    ensures
        r == spec_clamped_per_page(per_page as int),
{
    if per_page < 1 {
        1
    } else {
        per_page
    }
}

/// Total number of pages needed to show `total` rows, `per_page` at a time.
pub fn total_pages(total: i64, per_page: i64) -> (r: i64)
    ensures
        r == spec_total_pages(total as int, per_page as int),
{
    if total <= 0 {
        return 0;
    }
    let pp: i128 = clamped_per_page(per_page) as i128;
    let t: i128 = total as i128;
    let pages: i128 = (t + pp - 1) / pp;
    proof {
        assert(1 <= pages as int <= t as int) by (nonlinear_arith)
            requires
                1 <= t as int,
                1 <= pp as int,
                pages as int == (t as int + pp as int - 1) / (pp as int),
        ;
    }
    pages as i64
}

/// Keeps only the rows of the requested page: `per_page` rows starting at
/// `offset = (page - 1) * per_page`, both clamped as above.
pub fn page_slice<T>(rows: Vec<T>, page: i64, per_page: i64) -> (r: Vec<T>)
    ensures
        r@ == spec_page_slice(rows@, page as int, per_page as int),
{
    let ghost orig = rows@;
    let mut rows = rows;
    let cp: i64 = clamped_page(page);
    let pp: i64 = clamped_per_page(per_page);
    let skipped: i128 = cp as i128 - 1;
    let width: i128 = pp as i128;
    proof {
        assert(0 <= (skipped as int) * (width as int) < 0x40000000000000000000000000000000int)
            by (nonlinear_arith)
            requires
                0 <= (skipped as int) < 0x8000000000000000int,
                1 <= (width as int) < 0x8000000000000000int,
        ;
    }
    let off: i128 = skipped * width;
    proof {
        assert(off == spec_offset(page as int, per_page as int));
    }
    if off >= rows.len() as i128 {
        let r: Vec<T> = Vec::new();
        proof {
            assert(r@ =~= spec_page_slice(orig, page as int, per_page as int));
        }
        return r;
    }
    let mut tail = rows.split_off(off as usize);
    if (pp as i128) < (tail.len() as i128) {
        tail.truncate(pp as usize);
        proof {
            assert(tail@ =~= spec_page_slice(orig, page as int, per_page as int));
        }
    } else {
        proof {
            assert(tail@ =~= spec_page_slice(orig, page as int, per_page as int));
        }
    }
    tail
}

/// The pages `1..=k` of `s`, concatenated in order.
pub open spec fn spec_accumulated_pages<T>(s: Seq<T>, per_page: int, k: int) -> Seq<T>
    decreases k,
{
    if k <= 0 {
        Seq::empty()
    } else {
        spec_accumulated_pages(s, per_page, k - 1) + spec_page_slice(s, k, per_page)
    }
}

/// The pages `1..=k` concatenate to the prefix of `s` they cover.
proof fn lemma_accumulated_prefix<T>(s: Seq<T>, per_page: int, k: int)
    requires
        k >= 0,
    ensures
        spec_accumulated_pages(s, per_page, k) == (if k * spec_clamped_per_page(per_page)
            <= s.len() {
            s.take(k * spec_clamped_per_page(per_page))
        } else {
            s.take(s.len() as int)
        }),
    decreases k,
{
    let pp = spec_clamped_per_page(per_page);
    if k == 0 {
        assert(spec_accumulated_pages(s, per_page, 0) =~= s.take(0 * pp));
    } else {
        lemma_accumulated_prefix(s, per_page, k - 1);
        let off = (k - 1) * pp;
        assert(off + pp == k * pp && off >= 0 && 0 <= off <= k * pp) by (nonlinear_arith)
            requires
                k >= 1,
                pp >= 1,
                off == (k - 1) * pp,
        ;
        assert(spec_offset(k, per_page) == off);
        let acc = spec_accumulated_pages(s, per_page, k - 1);
        if off >= s.len() {
            assert(acc == s.take(s.len() as int) || acc == s.take(off));
            assert(s.take(s.len() as int) =~= s);
            assert(off <= s.len() ==> s.take(off) =~= s);
            assert(spec_page_slice(s, k, per_page) =~= Seq::<T>::empty());
            assert(acc + Seq::<T>::empty() =~= acc);
        } else {
            assert(acc == s.take(off));
            if off + pp <= s.len() {
                assert(s.take(off) + s.subrange(off, off + pp) =~= s.take(off + pp));
            } else {
                assert(s.take(off) + s.subrange(off, s.len() as int) =~= s.take(s.len() as int));
            }
        }
    }
}

/// Accumulating the pages `1..=total_page` of a row sequence yields
/// exactly that sequence: every row once, no duplicates, no gaps.
pub proof fn lemma_pages_partition<T>(s: Seq<T>, per_page: int)
    ensures
        spec_accumulated_pages(
            s,
            per_page,
            spec_total_pages(s.len() as int, per_page),
        ) == s,
{
    let pp = spec_clamped_per_page(per_page);
    let total = s.len() as int;
    let tp = spec_total_pages(total, per_page);
    if total == 0 {
        assert(spec_accumulated_pages(s, per_page, 0) =~= s);
    } else {
        vstd::arithmetic::div_mod::lemma_fundamental_div_mod(total + pp - 1, pp);
        vstd::arithmetic::div_mod::lemma_mod_bound(total + pp - 1, pp);
        assert(pp * tp == total + pp - 1 - ((total + pp - 1) % pp));
        assert(pp * tp >= total);
        assert(tp >= 0 && tp * pp >= total) by (nonlinear_arith)
            requires
                pp >= 1,
                total >= 1,
                pp * tp >= total,
        ;
        lemma_accumulated_prefix(s, per_page, tp);
        if tp * pp <= s.len() {
            assert(tp * pp == total);
            assert(s.take(total) =~= s);
        } else {
            assert(s.take(s.len() as int) =~= s);
        }
    }
}

/// One page of projected rows plus the totals a client needs to render a
/// pager, and zero or more state-descriptor tables for coded fields.
#[derive(Debug)]
pub struct PaginateData<T> {
    pub data_source: Vec<T>,
    pub page_size: i64,
    pub total: i64,
    pub total_page: i64,
    pub state_desc: Vec<Vec<StateDescriptor>>,
}

impl<T> Default for PaginateData<T> {
    /// The empty page: no rows, zero totals, no descriptor tables.
    fn default() -> (r: Self)
        ensures
            r.spec_is_default(),
    {
        PaginateData {
            data_source: Vec::new(),
            page_size: 0,
            total: 0,
            total_page: 0,
            state_desc: Vec::new(),
        }
    }
}

impl<T> DefaultData for PaginateData<T> {
    open spec fn spec_is_default(&self) -> bool {
        &&& self.data_source@.len() == 0
        &&& self.page_size == 0
        &&& self.total == 0
        &&& self.total_page == 0
        &&& self.state_desc@.len() == 0
    }

    fn default_data() -> (r: Self) {
        PaginateData {
            data_source: Vec::new(),
            page_size: 0,
            total: 0,
            total_page: 0,
            state_desc: Vec::new(),
        }
    }
}

impl<T> PaginateData<T> {
    /// Stores the page's rows; everything else is untouched.
    pub fn set_data_source(self, data_source: Vec<T>) -> (r: Self)
        ensures
            r.data_source == data_source,
            r.page_size == self.page_size,
            r.total == self.total,
            r.total_page == self.total_page,
            r.state_desc == self.state_desc,
    {
        let mut s = self;
        s.data_source = data_source;
        s
    }

    /// Stores the page size; everything else is untouched.
    pub fn set_page_size(self, page_size: i64) -> (r: Self)
        ensures
            r.page_size == page_size,
            r.data_source == self.data_source,
            r.total == self.total,
            r.total_page == self.total_page,
            r.state_desc == self.state_desc,
    {
        let mut s = self;
        s.page_size = page_size;
        s
    }

    /// Stores the row total and derives `total_page` from it and the page
    /// size set before; everything else is untouched.
    pub fn set_total(self, total: i64) -> (r: Self)
        ensures
            r.total == total,
            r.total_page == spec_total_pages(total as int, self.page_size as int),
            r.data_source == self.data_source,
            r.page_size == self.page_size,
            r.state_desc == self.state_desc,
    {
        let mut s = self;
        s.total = total;
        s.total_page = total_pages(total, s.page_size);
        s
    }

    /// Appends the state-descriptor table of one state family; the tables
    /// attached before, and everything else, are untouched.
    pub fn set_state_desc<S: StateDescribe>(self) -> (r: Self)
        ensures
            r.state_desc@.len() == self.state_desc@.len() + 1,
            forall|i: int|
                0 <= i < self.state_desc@.len() ==> r.state_desc@[i] == self.state_desc@[i],
            descriptors_match(r.state_desc@.last()@, S::spec_descriptors()),
            r.data_source == self.data_source,
            r.page_size == self.page_size,
            r.total == self.total,
            r.total_page == self.total_page,
    {
        let mut s = self;
        s.state_desc.push(S::descriptors());
        s
    }
}

} // verus!
