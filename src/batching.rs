use vstd::prelude::*;

verus! {

/// What a batch becomes after one more event: the batch that stays, and the
/// batch that is flushed, if any. A batch is flushed once it holds `size` events.
pub open spec fn after_event<T>(size: nat, batch: Seq<T>, e: T) -> (Seq<T>, Option<Seq<T>>) {
    if batch.push(e).len() >= size {
        (Seq::empty(), Some(batch.push(e)))
    } else {
        (batch.push(e), None)
    }
}

/// What a batch becomes when the idle period runs out: a non-empty batch is flushed.
pub open spec fn after_idle<T>(batch: Seq<T>) -> (Seq<T>, Option<Seq<T>>) {
    if batch.len() > 0 {
        (Seq::empty(), Some(batch))
    } else {
        (batch, None)
    }
}

pub open spec fn flushed_list<T>(f: Option<Seq<T>>) -> Seq<Seq<T>> {
    match f {
        Some(b) => seq![b],
        None => Seq::empty(),
    }
}

/// The batch left and the flushes made, in order, after `es` arrive one by one
/// with no idle gap.
pub open spec fn after_events<T>(size: nat, batch: Seq<T>, es: Seq<T>) -> (Seq<T>, Seq<Seq<T>>)
    decreases es.len(),
{
    if es.len() == 0 {
        (batch, Seq::empty())
    } else {
        let (b1, f) = after_event(size, batch, es[0]);
        let (b2, fs) = after_events(size, b1, es.drop_first());
        (b2, flushed_list(f) + fs)
    }
}

/// All the flushed batches, joined in flush order.
pub open spec fn joined<T>(fs: Seq<Seq<T>>) -> Seq<T>
    decreases fs.len(),
{
    if fs.len() == 0 {
        Seq::empty()
    } else {
        fs[0] + joined(fs.drop_first())
    }
}

/// The contents of a flushed batch, if there is one.
pub open spec fn seq_of<T>(o: Option<Vec<T>>) -> Option<Seq<T>> {
    match o {
        Some(v) => Some(v@),
        None => None,
    }
}

/// Events that arrive without filling the batch are all kept, in order, and
/// nothing is flushed.
pub proof fn lemma_below_size_keeps<T>(size: nat, batch: Seq<T>, es: Seq<T>)
    requires
        batch.len() + es.len() < size,
    ensures
        after_events(size, batch, es) == (batch + es, Seq::<Seq<T>>::empty()),
    decreases es.len(),
{
    if es.len() > 0 {
        let b1 = batch.push(es[0]);
        lemma_below_size_keeps(size, b1, es.drop_first());
        assert(b1 + es.drop_first() =~= batch + es);
        assert(flushed_list::<T>(None) + Seq::<Seq<T>>::empty() =~= Seq::<Seq<T>>::empty());
    } else {
        assert(batch + es =~= batch);
    }
}

/// Events that bring the batch exactly to its size give one flush of the whole
/// batch, in arrival order, and leave the batch empty.
pub proof fn lemma_filling_flushes_once<T>(size: nat, batch: Seq<T>, es: Seq<T>)
    requires
        es.len() > 0,
        batch.len() + es.len() == size,
    ensures
        after_events(size, batch, es) == (Seq::<T>::empty(), seq![batch + es]),
    decreases es.len(),
{
    let b1 = batch.push(es[0]);
    if es.len() == 1 {
        assert(b1 =~= batch + es);
        assert(es.drop_first().len() == 0);
        assert(after_event(size, batch, es[0]) == (Seq::<T>::empty(), Some(b1)));
        assert(after_events(size, Seq::<T>::empty(), es.drop_first()) == (
        Seq::<T>::empty(), Seq::<Seq<T>>::empty()));
        assert(flushed_list(Some(b1)) + Seq::<Seq<T>>::empty() =~= seq![batch + es]);
    } else {
        lemma_filling_flushes_once(size, b1, es.drop_first());
        assert(after_event(size, batch, es[0]) == (b1, None::<Seq<T>>));
        assert(b1 + es.drop_first() =~= batch + es);
        assert(flushed_list::<T>(None) + seq![batch + es] =~= seq![batch + es]);
    }
}

/// Starting from an empty batch, exactly `size` events with no idle gap give
/// exactly one flush, which holds all of them in the order they arrived.
pub proof fn lemma_batch_size_trigger<T>(size: nat, es: Seq<T>)
    requires
        size > 0,
        es.len() == size,
    ensures
        after_events(size, Seq::<T>::empty(), es) == (Seq::<T>::empty(), seq![es]),
{
    lemma_filling_flushes_once(size, Seq::<T>::empty(), es);
    assert(Seq::<T>::empty() + es =~= es);
}

/// Starting from an empty batch, `size - 1` events (at least one) flush
/// nothing; the idle period that follows flushes all of them, in order.
pub proof fn lemma_idle_trigger<T>(size: nat, es: Seq<T>)
    requires
        es.len() > 0,
        es.len() + 1 == size,
    ensures
        after_events(size, Seq::<T>::empty(), es) == (es, Seq::<Seq<T>>::empty()),
        after_idle(es) == (Seq::<T>::empty(), Some(es)),
{
    lemma_below_size_keeps(size, Seq::<T>::empty(), es);
    assert(Seq::<T>::empty() + es =~= es);
}

/// No event is lost, duplicated or reordered: the flushed batches, joined in
/// flush order and followed by the batch still pending, are the pending batch
/// followed by the events in arrival order.
pub proof fn lemma_flush_order<T>(size: nat, batch: Seq<T>, es: Seq<T>)
    ensures
        joined(after_events(size, batch, es).1) + after_events(size, batch, es).0 == batch + es,
    decreases es.len(),
{
    if es.len() == 0 {
        assert(batch + es =~= batch);
        assert(Seq::<T>::empty() + batch =~= batch);
    } else {
        let (b1, f) = after_event(size, batch, es[0]);
        let (b2, fs) = after_events(size, b1, es.drop_first());
        lemma_flush_order(size, b1, es.drop_first());
        let all = flushed_list(f) + fs;
        match f {
            Some(b) => {
                assert(all.drop_first() =~= fs);
                assert(joined(all) == b + joined(fs));
                assert(b1 =~= Seq::<T>::empty());
                assert(b =~= batch.push(es[0]));
                assert(b + joined(fs) + b2 =~= b + (joined(fs) + b2));
                assert(batch + es =~= batch.push(es[0]) + es.drop_first());
            },
            None => {
                assert(all =~= fs);
                assert(b1 =~= batch.push(es[0]));
                assert(batch + es =~= batch.push(es[0]) + es.drop_first());
            },
        }
    }
}

/// Accumulates events into batches and says when a batch is to be flushed.
pub struct Batcher<T> {
    batch: Vec<T>,
    batch_size: usize,
}

impl<T> Batcher<T> {
    pub closed spec fn view(&self) -> Seq<T> {
        self.batch@
    }

    pub closed spec fn size(&self) -> nat {
        self.batch_size as nat
    }

    /// A batch never stays at or above the size that flushes it.
    pub closed spec fn wf(&self) -> bool {
        self.batch@.len() < self.batch_size || self.batch@.len() == 0
    }

    pub fn new(batch_size: usize) -> (r: Self)
        ensures
            r.wf(),
            r@ == Seq::<T>::empty(),
            r.size() == batch_size,
    {
        Batcher { batch: Vec::new(), batch_size }
    }

    pub fn batch_size(&self) -> (r: usize)
        ensures
            r == self.size(),
    {
        self.batch_size
    }

    pub fn len(&self) -> (r: usize)
        ensures
            r == self@.len(),
    {
        self.batch.len()
    }

    fn take_batch(&mut self) -> (r: Vec<T>)
        ensures
            r@ == old(self)@,
            final(self)@ == Seq::<T>::empty(),
            final(self).size() == old(self).size(),
    {
        let mut taken: Vec<T> = Vec::new();
        std::mem::swap(&mut taken, &mut self.batch);
        taken
    }

    /// Adds an event; returns the batch to flush, in arrival order, when it is full.
    pub fn on_event(&mut self, e: T) -> (flushed: Option<Vec<T>>)
        requires
            old(self).wf(),
        ensures
            final(self).wf(),
            final(self).size() == old(self).size(),
            (final(self)@, seq_of(flushed)) == after_event(old(self).size(), old(self)@, e),
    {
        self.batch.push(e);
        if self.batch.len() >= self.batch_size {
            let b = self.take_batch();
            Some(b)
        } else {
            None
        }
    }

    /// The idle period ran out: returns the pending batch to flush, if any.
    pub fn on_idle(&mut self) -> (flushed: Option<Vec<T>>)
        requires
            old(self).wf(),
        ensures
            final(self).wf(),
            final(self).size() == old(self).size(),
            (final(self)@, seq_of(flushed)) == after_idle(old(self)@),
    {
        if self.batch.len() > 0 {
            let b = self.take_batch();
            Some(b)
        } else {
            None
        }
    }

    /// The queue is closed: returns the pending batch, if any, for a last flush.
    pub fn finish(self) -> (flushed: Option<Vec<T>>)
        ensures
            seq_of(flushed) == after_idle(self@).1,
    {
        if self.batch.len() > 0 {
            Some(self.batch)
        } else {
            None
        }
    }
}

} // verus!
