use std::collections::VecDeque;
use vstd::prelude::*;

verus! {

/// The last `c` elements of `s`, in order; all of `s` when it is shorter.
pub open spec fn retained<T>(s: Seq<T>, c: nat) -> Seq<T> {
    if s.len() <= c {
        s
    } else {
        s.subrange(s.len() - c, s.len() as int)
    }
}

/// The history of a window of capacity `c` holding `h` after `x` is pushed.
pub open spec fn pushed<T>(h: Seq<T>, c: nat, x: T) -> Seq<T> {
    retained(h.push(x), c)
}

/// The history of a window of capacity `c` holding `h` after each element of
/// `xs` is pushed, first to last.
pub open spec fn pushed_all<T>(h: Seq<T>, c: nat, xs: Seq<T>) -> Seq<T>
    decreases xs.len(),
{
    if xs.len() == 0 {
        h
    } else {
        pushed(pushed_all(h, c, xs.drop_last()), c, xs.last())
    }
}

proof fn lemma_retained_push<T>(s: Seq<T>, c: nat, x: T)
    requires
        1 <= c,
    ensures
        retained(retained(s, c).push(x), c) == retained(s.push(x), c),
{
    assert(retained(retained(s, c).push(x), c) =~= retained(s.push(x), c));
}

proof fn lemma_pushed_all_from<T>(h: Seq<T>, c: nat, xs: Seq<T>)
    requires
        1 <= c,
        h.len() <= c,
    ensures
        pushed_all(h, c, xs) == retained(h + xs, c),
    decreases xs.len(),
{
    if xs.len() == 0 {
        assert(h + xs =~= h);
    } else {
        let init = xs.drop_last();
        lemma_pushed_all_from(h, c, init);
        lemma_retained_push(h + init, c, xs.last());
        assert((h + init).push(xs.last()) =~= h + xs);
    }
}

/// A window of capacity `c` that starts empty holds, after any sequence of
/// pushes, exactly the last `min(c, n)` of the `n` values pushed, in the
/// order in which they were pushed.
pub proof fn lemma_holds_latest<T>(c: nat, xs: Seq<T>)
    requires
        1 <= c,
    ensures
        pushed_all(Seq::empty(), c, xs) == retained(xs, c),
        pushed_all(Seq::empty(), c, xs).len() == (if xs.len() <= c {
            xs.len()
        } else {
            c
        }),
        forall|i: int|
            0 <= i < pushed_all(Seq::empty(), c, xs).len() ==> pushed_all(Seq::empty(), c, xs)[i]
                == xs[xs.len() - pushed_all(Seq::empty(), c, xs).len() + i],
{
    lemma_pushed_all_from(Seq::empty(), c, xs);
    assert(Seq::<T>::empty() + xs =~= xs);
}

/// Pushing `c + 1` values into an empty window of capacity `c` fills it with
/// the first `c`, then drops exactly the first value pushed; at no point does
/// the window hold more than `c` values.
pub proof fn lemma_evicts_first<T>(c: nat, xs: Seq<T>)
    requires
        1 <= c,
        xs.len() == c + 1,
    ensures
        pushed_all(Seq::empty(), c, xs.take(c as int)) == xs.take(c as int),
        pushed_all(Seq::empty(), c, xs.take(c as int))[0] == xs[0],
        pushed_all(Seq::empty(), c, xs) == xs.drop_first(),
        forall|k: int|
            0 <= k <= xs.len() ==> #[trigger] pushed_all(Seq::empty(), c, xs.take(k)).len() <= c,
{
    lemma_holds_latest(c, xs.take(c as int));
    lemma_holds_latest(c, xs);
    assert(retained(xs, c) =~= xs.drop_first());
    assert forall|k: int| 0 <= k <= xs.len() implies #[trigger] pushed_all(
        Seq::empty(),
        c,
        xs.take(k),
    ).len() <= c by {
        lemma_holds_latest(c, xs.take(k));
    }
}

/// A bounded history of samples, oldest first.
///
/// Once full, every push drops the oldest sample and hands it back, so that a
/// caller can keep running aggregates without rescanning the history.
pub struct Window<T> {
    vec: VecDeque<T>,
    max: usize,
}

impl<T> View for Window<T> {
    type V = Seq<T>;

    closed spec fn view(&self) -> Seq<T> {
        self.vec@
    }
}

impl<T> Window<T> {
    /// The number of samples the window keeps.
    pub closed spec fn capacity(&self) -> nat {
        self.max as nat
    }

    /// The capacity is positive and the history never exceeds it.
    pub open spec fn wf(&self) -> bool {
        &&& 1 <= self.capacity()
        &&& self@.len() <= self.capacity()
    }

    /// An empty window that keeps at most `max` samples.
    pub fn new(max: usize) -> (r: Self)
        requires
            1 <= max,
        ensures
            r.wf(),
            r.capacity() == max,
            r@ == Seq::<T>::empty(),
    {
        Window { vec: VecDeque::with_capacity(max), max }
    }

    /// Appends `x` as the newest sample. When the window was full, its oldest
    /// sample leaves and is returned.
    pub fn push(&mut self, x: T) -> (evicted: Option<T>)
        requires
            old(self).wf(),
        ensures
            final(self).wf(),
            final(self).capacity() == old(self).capacity(),
            final(self)@ == pushed(old(self)@, old(self).capacity(), x),
            evicted == (if old(self)@.len() == old(self).capacity() {
                Some(old(self)@[0])
            } else {
                None::<T>
            }),
    {
        self.vec.push_back(x);
        if self.max < self.vec.len() {
            let r = self.vec.pop_front();
            proof {
                assert(self.vec@ =~= retained(old(self)@.push(x), self.max as nat));
            }
            r
        } else {
            None
        }
    }

    /// The number of samples held.
    pub fn len(&self) -> (r: usize)
        ensures
            r == self@.len(),
    {
        self.vec.len()
    }

    /// Whether no sample has been pushed yet.
    pub fn is_empty(&self) -> (r: bool)
        ensures
            r == (self@.len() == 0),
    {
        self.vec.len() == 0
    }

    /// The number of samples the window keeps.
    pub fn max(&self) -> (r: usize)
        ensures
            r == self.capacity(),
    {
        self.max
    }

    /// The `i`-th sample held, counting from the oldest.
    pub fn get(&self, i: usize) -> (r: &T)
        requires
            i < self@.len(),
        ensures
            *r == self@[i as int],
    {
        &self.vec[i]
    }
}

} // verus!
