//! Default ordering of listed rows: primary key, descending, so that
//! repeated list calls with no intervening writes paginate deterministically.
//!
//! The sort is specified as a function, not merely as a permutation plus
//! sortedness, so two runs over equal row sequences provably return equal
//! results.

use vstd::prelude::*;

verus! {

/// A row with a primary key.
pub trait Keyed: Sized {
    /// The primary key.
    spec fn spec_key(&self) -> i64;

    /// The primary key.
    fn key(&self) -> (k: i64)
        ensures
            k == self.spec_key(),
    ;
}

/// Descending by primary key.
pub open spec fn spec_sorted_desc<T: Keyed>(s: Seq<T>) -> bool {
    forall|i: int, j: int| 0 <= i < j < s.len() ==> s[i].spec_key() >= s[j].spec_key()
}

/// `t` placed in front of the first row of `s` whose key is not above
/// `t`'s; a sequence sorted descending stays sorted.
pub open spec fn spec_insert_desc<T: Keyed>(s: Seq<T>, t: T) -> Seq<T>
    decreases s.len(),
{
    if s.len() == 0 {
        seq![t]
    } else if t.spec_key() >= s[0].spec_key() {
        seq![t] + s
    } else {
        seq![s[0]] + spec_insert_desc(s.drop_first(), t)
    }
}

/// Insertion sort of `s`, descending by primary key.
pub open spec fn spec_sort_desc<T: Keyed>(s: Seq<T>) -> Seq<T>
    decreases s.len(),
{
    if s.len() == 0 {
        Seq::empty()
    } else {
        spec_insert_desc(spec_sort_desc(s.drop_first()), s[0])
    }
}

proof fn lemma_insert_desc_len<T: Keyed>(s: Seq<T>, t: T)
    ensures
        spec_insert_desc(s, t).len() == s.len() + 1,
    decreases s.len(),
{
    if s.len() == 0 {
    } else if t.spec_key() >= s[0].spec_key() {
    } else {
        lemma_insert_desc_len(s.drop_first(), t);
    }
}

/// Sorting changes no length.
pub proof fn lemma_sort_desc_len<T: Keyed>(s: Seq<T>)
    ensures
        spec_sort_desc(s).len() == s.len(),
    decreases s.len(),
{
    if s.len() == 0 {
    } else {
        lemma_sort_desc_len(s.drop_first());
        lemma_insert_desc_len(spec_sort_desc(s.drop_first()), s[0]);
    }
}

/// A property of every row of `s`, and of `t`, holds of every row of the
/// insertion of `t` into `s`.
proof fn lemma_insert_desc_all<T: Keyed>(s: Seq<T>, t: T, property: spec_fn(T) -> bool)
    requires
        forall|i: int| 0 <= i < s.len() ==> property(#[trigger] s[i]),
        property(t),
    ensures
        forall|i: int|
            0 <= i < spec_insert_desc(s, t).len() ==> property(#[trigger] spec_insert_desc(s, t)[i]),
    decreases s.len(),
{
    if s.len() == 0 {
    } else if t.spec_key() >= s[0].spec_key() {
        assert forall|i: int| 0 <= i < spec_insert_desc(s, t).len() implies property(
            #[trigger] spec_insert_desc(s, t)[i],
        ) by {
            if i > 0 {
                assert(spec_insert_desc(s, t)[i] == s[i - 1]);
            }
        }
    } else {
        let rest = s.drop_first();
        assert(forall|i: int| 0 <= i < rest.len() ==> property(#[trigger] rest[i]));
        lemma_insert_desc_all(rest, t, property);
        assert forall|i: int| 0 <= i < spec_insert_desc(s, t).len() implies property(
            #[trigger] spec_insert_desc(s, t)[i],
        ) by {
            if i == 0 {
                assert(spec_insert_desc(s, t)[0] == s[0]);
            } else {
                assert(spec_insert_desc(s, t)[i] == spec_insert_desc(rest, t)[i - 1]);
            }
        }
    }
}

/// A property of every row of `s` holds of every row of its sort.
pub proof fn lemma_sort_desc_all<T: Keyed>(s: Seq<T>, property: spec_fn(T) -> bool)
    requires
        forall|i: int| 0 <= i < s.len() ==> property(#[trigger] s[i]),
    ensures
        forall|i: int|
            0 <= i < spec_sort_desc(s).len() ==> property(#[trigger] spec_sort_desc(s)[i]),
    decreases s.len(),
{
    if s.len() == 0 {
    } else {
        assert(forall|i: int|
            0 <= i < s.drop_first().len() ==> property(#[trigger] s.drop_first()[i]));
        lemma_sort_desc_all(s.drop_first(), property);
        lemma_insert_desc_all(spec_sort_desc(s.drop_first()), s[0], property);
    }
}

/// Inserting into a sequence sorted descending keeps it sorted.
proof fn lemma_insert_desc_sorted<T: Keyed>(s: Seq<T>, t: T)
    requires
        spec_sorted_desc(s),
    ensures
        spec_sorted_desc(spec_insert_desc(s, t)),
    decreases s.len(),
{
    if s.len() == 0 {
    } else if t.spec_key() >= s[0].spec_key() {
        assert forall|i: int, j: int|
            0 <= i < j < spec_insert_desc(s, t).len() implies spec_insert_desc(
            s,
            t,
        )[i].spec_key() >= spec_insert_desc(s, t)[j].spec_key() by {
            if i > 0 {
                assert(spec_insert_desc(s, t)[i] == s[i - 1]);
                assert(spec_insert_desc(s, t)[j] == s[j - 1]);
            } else {
                assert(spec_insert_desc(s, t)[j] == s[j - 1]);
                assert(s[0].spec_key() >= s[j - 1].spec_key());
            }
        }
    } else {
        let rest = s.drop_first();
        assert(spec_sorted_desc(rest));
        lemma_insert_desc_sorted(rest, t);
        lemma_insert_desc_all(
            rest,
            t,
            |x: T| x.spec_key() <= s[0].spec_key(),
        );
        let r = spec_insert_desc(s, t);
        assert forall|i: int, j: int| 0 <= i < j < r.len() implies r[i].spec_key()
            >= r[j].spec_key() by {
            if i > 0 {
                assert(r[i] == spec_insert_desc(rest, t)[i - 1]);
                assert(r[j] == spec_insert_desc(rest, t)[j - 1]);
            } else {
                assert(r[j] == spec_insert_desc(rest, t)[j - 1]);
            }
        }
    }
}

/// The sort is sorted.
pub proof fn lemma_sort_desc_sorted<T: Keyed>(s: Seq<T>)
    ensures
        spec_sorted_desc(spec_sort_desc(s)),
    decreases s.len(),
{
    if s.len() == 0 {
    } else {
        lemma_sort_desc_sorted(s.drop_first());
        lemma_insert_desc_sorted(spec_sort_desc(s.drop_first()), s[0]);
    }
}

/// Positional form of `spec_insert_desc`: inserting at the first index
/// whose key is not above `t`'s is the same sequence.
proof fn lemma_insert_desc_at<T: Keyed>(s: Seq<T>, t: T, k: int)
    requires
        0 <= k <= s.len(),
        forall|j: int| 0 <= j < k ==> (#[trigger] s[j]).spec_key() > t.spec_key(),
        k < s.len() ==> t.spec_key() >= s[k].spec_key(),
    ensures
        spec_insert_desc(s, t) == s.insert(k, t),
    decreases k,
{
    if k == 0 {
        if s.len() == 0 {
            assert(spec_insert_desc(s, t) =~= s.insert(0, t));
        } else {
            assert(spec_insert_desc(s, t) =~= s.insert(0, t));
        }
    } else {
        let rest = s.drop_first();
        lemma_insert_desc_at(rest, t, k - 1);
        assert(seq![s[0]] + rest.insert(k - 1, t) =~= s.insert(k, t));
    }
}

/// Inserts `t` into `acc`, which is sorted descending by key, in front of
/// the first row whose key is not above `t`'s.
fn insert_desc<T: Keyed>(acc: Vec<T>, t: T) -> (r: Vec<T>)
    ensures
        r@ == spec_insert_desc(acc@, t),
{
    let mut acc = acc;
    let tk = t.key();
    let mut k: usize = 0;
    while k < acc.len() && acc[k].key() > tk
        invariant
            k <= acc@.len(),
            tk == t.spec_key(),
            forall|j: int| 0 <= j < k ==> (#[trigger] acc@[j]).spec_key() > t.spec_key(),
        decreases acc@.len() - k,
    {
        k += 1;
    }
    proof {
        lemma_insert_desc_at(acc@, t, k as int);
    }
    acc.insert(k, t);
    acc
}

/// Sorts `rows` by primary key, descending.
pub fn sort_by_key_desc<T: Keyed>(rows: Vec<T>) -> (r: Vec<T>)
    ensures
        r@ == spec_sort_desc(rows@),
{
    let ghost orig = rows@;
    let mut rows = rows;
    let mut acc: Vec<T> = Vec::new();
    proof {
        assert(rows@ =~= orig.take(rows@.len() as int));
        assert(orig.skip(orig.len() as int) =~= Seq::<T>::empty());
        assert(acc@ =~= spec_sort_desc(orig.skip(rows@.len() as int)));
    }
    while rows.len() > 0
        invariant
            rows@.len() <= orig.len(),
            rows@ == orig.take(rows@.len() as int),
            acc@ == spec_sort_desc(orig.skip(rows@.len() as int)),
        decreases rows@.len(),
    {
        let ghost j = rows@.len() as int;
        let t = rows.pop().unwrap();
        proof {
            assert(t == orig.take(j)[j - 1]);
            assert(t == orig[j - 1]);
            assert(orig.take(j).subrange(0, j - 1) =~= orig.take(j - 1));
            assert(orig.skip(j - 1)[0] == orig[j - 1]);
            assert(orig.skip(j - 1).drop_first() =~= orig.skip(j));
        }
        acc = insert_desc(acc, t);
        proof {
            assert(acc@ == spec_sort_desc(orig.skip(j - 1)));
        }
    }
    proof {
        assert(orig.skip(0) =~= orig);
    }
    acc
}

} // verus!
