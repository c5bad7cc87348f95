//! A writer wrapper that keeps a running total of the bytes its sink accepted
//! and publishes it through a shared counter.
use std::cell::Cell;
use std::rc::Rc;
use vstd::prelude::*;

verus! {

/// std's `Cell`, carried opaquely: a cell's contents can change behind a
/// shared reference, so nothing is stated about them.
#[verifier::external_type_specification]
#[verifier::external_body]
#[verifier::reject_recursive_types(T)]
pub struct ExCell<T: ?Sized>(Cell<T>);

/// Relies on `Cell::new`, which makes a cell holding `value`.
pub assume_specification<T>[ Cell::<T>::new ](value: T) -> Cell<T>;

/// Relies on `Cell::set`, which stores `val` in the cell.
pub assume_specification<T>[ Cell::<T>::set ](cell: &Cell<T>, val: T);

/// Number of bytes a sink reported for one write: the count on success,
/// nothing on failure.
pub open spec fn credited<E>(outcome: Result<usize, E>) -> nat {
    match outcome {
        Ok(n) => n as nat,
        Err(_) => 0,
    }
}

/// Running total after a run of write outcomes, starting from `start`.
pub open spec fn written_after<E>(start: nat, outcomes: Seq<Result<usize, E>>) -> nat
    decreases outcomes.len(),
{
    if outcomes.len() == 0 {
        start
    } else {
        written_after(start, outcomes.drop_last()) + credited(outcomes.last())
    }
}

/// Total number of bytes in a run of payloads.
pub open spec fn payload_total(payloads: Seq<Seq<u8>>) -> nat
    decreases payloads.len(),
{
    if payloads.len() == 0 {
        0
    } else {
        payload_total(payloads.drop_last()) + payloads.last().len()
    }
}

/// `record_write` adds `credited(outcome)` for each call, so a fresh writer's
/// total after a run of writes is `written_after(0, outcomes)`. When every
/// write of the run hands its whole payload to the sink, that total is the size
/// of all payloads together.
pub proof fn lemma_full_writes_total<E>(payloads: Seq<Seq<u8>>, outcomes: Seq<Result<usize, E>>)
    requires
        outcomes.len() == payloads.len(),
        forall|i: int|
            0 <= i < outcomes.len() ==> (#[trigger] outcomes[i] matches Ok(n) && n
                == payloads[i].len()),
    ensures
        written_after(0, outcomes) == payload_total(payloads),
    decreases outcomes.len(),
{
    if outcomes.len() > 0 {
        let p = payloads.drop_last();
        let o = outcomes.drop_last();
        assert forall|i: int| 0 <= i < o.len() implies (#[trigger] o[i] matches Ok(n) && n
            == p[i].len()) by {
            assert(o[i] == outcomes[i]);
        }
        lemma_full_writes_total(p, o);
        assert(outcomes[outcomes.len() - 1] matches Ok(n) && n == payloads.last().len());
    }
}

/// Wraps a sink and counts the bytes it accepts.
pub struct CountingWriter<W> {
    pub inner: W,
    counting: Rc<Cell<usize>>,
    written_bytes: usize,
}

impl<W> CountingWriter<W> {
    /// Bytes the sink has accepted so far.
    pub closed spec fn written(&self) -> nat {
        self.written_bytes as nat
    }

    /// The wrapped sink.
    pub closed spec fn sink(&self) -> W {
        self.inner
    }

    /// The shared counter this writer publishes to.
    pub closed spec fn counter(&self) -> Rc<Cell<usize>> {
        self.counting
    }

    /// Wraps `inner` with a total of zero.
    pub fn new(inner: W) -> (r: Self)
        ensures
            r.sink() == inner,
            r.written() == 0,
    {
        CountingWriter { inner, counting: Rc::new(Cell::new(0)), written_bytes: 0 }
    }

    /// Bytes the sink has accepted so far.
    pub fn written_bytes(&self) -> (r: usize)
        ensures
            r as nat == self.written(),
    {
        self.written_bytes
    }

    /// A handle on the shared counter, for readers that do not own the writer.
    pub fn counting(&self) -> (r: Rc<Cell<usize>>)
        ensures
            r == self.counter(),
    {
        Rc::clone(&self.counting)
    }

    /// The wrapped sink.
    pub fn inner(&self) -> (r: &W)
        ensures
            *r == self.sink(),
    {
        &self.inner
    }

    /// Accounts for what the sink reported for one write and hands that
    /// report back unchanged. A success adds its count to the total and
    /// publishes the new total; a failure changes nothing.
    pub fn record_write<E>(&mut self, outcome: Result<usize, E>) -> (r: Result<usize, E>)
        requires
            outcome matches Ok(n) ==> old(self).written() + n <= usize::MAX,
        ensures
            r == outcome,
            final(self).written() == old(self).written() + credited(outcome),
            final(self).sink() == old(self).sink(),
            final(self).counter() == old(self).counter(),
    {
        match outcome {
            Ok(len) => {
                self.written_bytes = self.written_bytes + len;
                self.counting.set(self.written_bytes);
                Ok(len)
            },
            Err(e) => Err(e),
        }
    }
}

} // verus!
