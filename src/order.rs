//! Ordering posts newest first, keeping the order of posts of equal date.
use vstd::prelude::*;
use crate::content::{Post, PostMetadata};
use crate::date::DateTime;

verus! {

/// Something with a publish timestamp.
pub trait Dated {
    spec fn timestamp(&self) -> DateTime;

    fn published(&self) -> (r: DateTime)
        ensures
            r == self.timestamp(),
    ;
}

impl Dated for Post {
    open spec fn timestamp(&self) -> DateTime {
        self.date
    }

    fn published(&self) -> (r: DateTime) {
        self.date
    }
}

impl Dated for PostMetadata {
    open spec fn timestamp(&self) -> DateTime {
        self.date
    }

    fn published(&self) -> (r: DateTime) {
        self.date
    }
}

/// No post is later than one before it.
pub open spec fn newest_first<T: Dated>(s: Seq<T>) -> bool {
    forall|i: int, j: int| 0 <= i < j < s.len() ==> !(#[trigger] s[j]).timestamp().later_than(#[trigger] s[i].timestamp())
}

/// The posts of `s` dated `d`, in their order in `s`.
pub open spec fn dated<T: Dated>(s: Seq<T>, d: DateTime) -> Seq<T> {
    s.filter(on_date(d))
}

/// Holds of the items dated `d`.
pub open spec fn on_date<T: Dated>(d: DateTime) -> spec_fn(T) -> bool {
    |p: T| p.timestamp() == d
}

/// `r` orders the posts of `s` newest first, and posts of equal date keep
/// their order in `s`.
pub open spec fn stable_newest_first<T: Dated>(s: Seq<T>, r: Seq<T>) -> bool {
    &&& newest_first(r)
    &&& forall|d: DateTime| #[trigger] dated(r, d) == dated(s, d)
}

proof fn lemma_insert_dated<T: Dated>(out: Seq<T>, k: int, x: T, d: DateTime)
    requires
        0 <= k <= out.len(),
        forall|i: int| k <= i < out.len() ==> x.timestamp().later_than(#[trigger] out[i].timestamp()),
    ensures
        dated(out.insert(k, x), d) == if x.timestamp() == d {
            dated(out, d).push(x)
        } else {
            dated(out, d)
        },
{
    let pred = on_date::<T>(d);
    let a = out.subrange(0, k);
    let b = out.subrange(k, out.len() as int);
    assert(out == a + b);
    assert(out.insert(k, x) == a.push(x) + b);
    Seq::filter_distributes_over_add(a, b, pred);
    Seq::filter_distributes_over_add(a.push(x), b, pred);
    a.lemma_filter_push(x, pred);
    if x.timestamp() == d {
        assert(b.all(|p: T| !pred(p))) by {
            assert forall|i: int| 0 <= i < b.len() implies !pred(#[trigger] b[i]) by {
                assert(x.timestamp().later_than(out[k + i].timestamp()));
            }
        }
        b.lemma_all_neg_filter_empty(pred);
        assert(b.filter(pred) =~= Seq::empty());
        assert(a.filter(pred).push(x) + b.filter(pred) =~= a.filter(pred).push(x));
        assert(a.filter(pred) + b.filter(pred) =~= a.filter(pred));
    }
}

/// Orders posts newest first; posts of equal date keep their order.
pub fn sort_newest_first<T: Dated>(posts: Vec<T>) -> (r: Vec<T>)
    ensures
        stable_newest_first(posts@, r@),
        r@.len() == posts@.len(),
{
    let ghost orig = posts@;
    let n = posts.len();
    let mut rest = posts;
    let mut out: Vec<T> = Vec::new();
    while rest.len() > 0
        invariant
            n == orig.len(),
            rest@.len() <= n,
            rest@ == orig.subrange(n - rest@.len(), n as int),
            out@.len() == n - rest@.len(),
            newest_first(out@),
            forall|d: DateTime| #[trigger] dated(out@, d) == dated(orig.subrange(0, n - rest@.len()), d),
        decreases rest.len(),
    {
        let ghost taken = n - rest@.len();
        let x = rest.remove(0);
        assert(x == orig[taken]);
        let stamp = x.published();
        let mut k: usize = 0;
        while k < out.len() && !stamp.is_later_than(&out[k].published())
            invariant
                k <= out@.len(),
                stamp == x.timestamp(),
                forall|i: int| 0 <= i < k ==> !x.timestamp().later_than(#[trigger] out@[i].timestamp()),
            decreases out@.len() - k,
        {
            k = k + 1;
        }
        let ghost old_out = out@;
        proof {
            assert forall|i: int| k <= i < old_out.len() implies x.timestamp().later_than(
                #[trigger] old_out[i].timestamp(),
            ) by {
                assert(!old_out[i].timestamp().later_than(old_out[k as int].timestamp()) || i == k);
            }
        }
        out.insert(k, x);
        proof {
            assert(orig.subrange(0, taken + 1) == orig.subrange(0, taken).push(x));
            assert forall|d: DateTime| #[trigger] dated(out@, d) == dated(orig.subrange(0, taken + 1), d) by {
                lemma_insert_dated(old_out, k as int, x, d);
                orig.subrange(0, taken).lemma_filter_push(x, on_date::<T>(d));
            }
            assert(rest@ == orig.subrange(n - rest@.len(), n as int));
        }
    }
    assert(orig.subrange(0, n as int) == orig);
    out
}

/// Two items of different dates come out newest first, whatever order they
/// came in: the later one leads.
pub proof fn lemma_two_items_newest_first<T: Dated>(s: Seq<T>, r: Seq<T>)
    requires
        s.len() == 2,
        r.len() == 2,
        stable_newest_first(s, r),
        s[1].timestamp().later_than(s[0].timestamp()),
    ensures
        r == seq![s[1], s[0]],
{
    reveal_with_fuel(Seq::filter, 3);
    let d0 = s[0].timestamp();
    let d1 = s[1].timestamp();
    assert(s.drop_last() =~= seq![s[0]]);
    assert(seq![s[0]].drop_last() =~= Seq::<T>::empty());
    assert(r.drop_last() =~= seq![r[0]]);
    assert(seq![r[0]].drop_last() =~= Seq::<T>::empty());
    assert(dated(r, d0) == dated(s, d0));
    assert(dated(r, d1) == dated(s, d1));
    assert(dated(s, d1) =~= seq![s[1]]);
    assert(dated(s, d0) =~= seq![s[0]]);
    assert(!r[1].timestamp().later_than(r[0].timestamp()));
    assert(r =~= seq![s[1], s[0]]);
}

} // verus!
