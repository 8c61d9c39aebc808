//! Initiative order: a stable sort from highest to lowest initiative.
use vstd::prelude::*;

verus! {

/// Something that has an initiative value.
pub trait HasInitiative {
    spec fn init_key(&self) -> i32;

    fn initiative_value(&self) -> (r: i32)
        ensures
            r == self.init_key(),
    ;
}

/// Initiatives never increase along `s`.
pub open spec fn sorted_desc<T: HasInitiative>(s: Seq<T>) -> bool {
    forall|i: int, j: int| 0 <= i <= j < s.len() ==> #[trigger] s[i].init_key() >= #[trigger] s[j].init_key()
}

/// The members of `s` with initiative `k`, in their order in `s`.
pub open spec fn with_initiative<T: HasInitiative>(s: Seq<T>, k: i32) -> Seq<T> {
    s.filter(init_is(k))
}

/// The test "has initiative `k`".
pub open spec fn init_is<T: HasInitiative>(k: i32) -> spec_fn(T) -> bool {
    |x: T| x.init_key() == k
}

/// `t` is `s` stably sorted from highest to lowest initiative: it is sorted,
/// and for every initiative value it holds the same members in the same
/// relative order as `s`.
pub open spec fn stable_sorted_desc<T: HasInitiative>(s: Seq<T>, t: Seq<T>) -> bool {
    &&& t.len() == s.len()
    &&& sorted_desc(t)
    &&& forall|k: i32| #[trigger] with_initiative(t, k) == with_initiative(s, k)
}

proof fn lemma_filter_none<T>(s: Seq<T>, pred: spec_fn(T) -> bool)
    requires
        forall|i: int| 0 <= i < s.len() ==> !pred(#[trigger] s[i]),
    ensures
        s.filter(pred) == Seq::<T>::empty(),
    decreases s.len(),
{
    reveal(Seq::filter);
    if s.len() > 0 {
        let p = s.drop_last();
        assert forall|i: int| 0 <= i < p.len() implies !pred(#[trigger] p[i]) by {
            assert(p[i] == s[i]);
        }
        lemma_filter_none(p, pred);
        assert(!pred(s[s.len() - 1]));
    }
    assert(s.filter(pred) =~= Seq::<T>::empty());
}

/// Sorts `v` stably from highest to lowest initiative.
pub fn stable_sort_by_initiative<T: HasInitiative>(v: &mut Vec<T>)
    ensures
        stable_sorted_desc(old(v)@, final(v)@),
{
    let ghost orig = v@;
    let mut src: Vec<T> = Vec::new();
    std::mem::swap(&mut src, v);
    let mut out: Vec<T> = Vec::new();
    let ghost mut done: int = 0;
    assert(orig.take(0) =~= Seq::<T>::empty());
    assert(orig.skip(0) =~= orig);
    while src.len() > 0
        invariant
            0 <= done <= orig.len(),
            src@ == orig.skip(done),
            out@.len() == done,
            sorted_desc(out@),
            forall|k: i32| #[trigger] with_initiative(out@, k) == with_initiative(orig.take(done), k),
        decreases src@.len(),
    {
        let x = src.remove(0);
        let key = x.initiative_value();
        let mut p: usize = 0;
        while p < out.len() && out[p].initiative_value() >= key
            invariant
                p <= out@.len(),
                forall|j: int| 0 <= j < p ==> #[trigger] out@[j].init_key() >= key,
            decreases out@.len() - p,
        {
            p = p + 1;
        }
        let ghost before = out@;
        let ghost xv = x;
        out.insert(p, x);
        proof {
            assert(orig.skip(done)[0] == xv);
            assert(orig[done] == xv);
            assert(orig.skip(done).drop_first() =~= orig.skip(done + 1));
            assert(orig.take(done + 1) =~= orig.take(done).push(xv));
            let lo = before.subrange(0, p as int);
            let hi = before.subrange(p as int, before.len() as int);
            assert(before =~= lo + hi);
            assert(out@ =~= lo + seq![xv] + hi);
            assert forall|j: int| 0 <= j < hi.len() implies #[trigger] hi[j].init_key() < key by {
                assert(hi[j] == before[p + j]);
                assert(before[p as int].init_key() < key);
                assert(before[p as int].init_key() >= before[p + j].init_key());
            }
            assert(sorted_desc(out@)) by {
                assert forall|i: int, j: int| 0 <= i <= j < out@.len() implies #[trigger] out@[i].init_key()
                    >= #[trigger] out@[j].init_key() by {
                    if i < p && j < p {
                        assert(out@[i] == before[i] && out@[j] == before[j]);
                    } else if i < p && j == p {
                        assert(out@[i] == before[i]);
                    } else if i < p {
                        assert(out@[i] == before[i] && out@[j] == before[j - 1]);
                    } else if i == p && j > p {
                        assert(out@[j] == hi[j - p - 1]);
                    } else if i > p {
                        assert(out@[i] == before[i - 1] && out@[j] == before[j - 1]);
                    }
                }
            }
            assert forall|k: i32| #[trigger] with_initiative(out@, k) == with_initiative(orig.take(done + 1), k) by {
                let pred = init_is::<T>(k);
                Seq::filter_distributes_over_add(lo + seq![xv], hi, pred);
                Seq::filter_distributes_over_add(lo, seq![xv], pred);
                Seq::filter_distributes_over_add(lo, hi, pred);
                orig.take(done).lemma_filter_push(xv, pred);
                assert(seq![xv].filter(pred) == if pred(xv) { seq![xv] } else { Seq::<T>::empty() }) by {
                    lemma_filter_none(Seq::<T>::empty(), pred);
                    Seq::<T>::empty().lemma_filter_push(xv, pred);
                    assert(seq![xv] =~= Seq::<T>::empty().push(xv));
                    assert(Seq::<T>::empty().push(xv) =~= seq![xv]);
                }
                let fl = lo.filter(pred);
                let fh = hi.filter(pred);
                let fx = seq![xv].filter(pred);
                assert(with_initiative(out@, k) == (fl + fx) + fh);
                assert(with_initiative(before, k) == fl + fh);
                assert(with_initiative(orig.take(done), k) == fl + fh);
                if k == key {
                    lemma_filter_none(hi, pred);
                    assert(fh == Seq::<T>::empty());
                    assert((fl + fx) + fh =~= (fl + fh).push(xv));
                } else {
                    assert(fx == Seq::<T>::empty());
                    assert((fl + fx) + fh =~= fl + fh);
                }
            }
            done = done + 1;
        }
    }
    assert(orig.take(done) =~= orig);
    *v = out;
}

} // verus!
