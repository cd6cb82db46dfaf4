//! A short buffer for the predicates that one associated type binding
//! lowers to. Most bindings lower to a single predicate, which the buffer
//! holds without allocating.
use vstd::prelude::*;
use crate::ty::{preds_view, GenericPredicate, PredV};

verus! {

/// The buffer: a `smallvec::SmallVec` that holds one predicate in place.
#[verifier::external_body]
pub struct PredicateBuffer {
    inner: smallvec::SmallVec<[GenericPredicate; 1]>,
}

/// What the buffer holds, in the order in which it was put in.
pub uninterp spec fn buffered(b: PredicateBuffer) -> Seq<GenericPredicate>;

/// The most that the buffer is asked to hold. Below this number its growth
/// cannot overflow.
pub open spec fn buffer_limit() -> nat {
    65536
}

/// Calls `smallvec::SmallVec::with_capacity`, which makes an empty vector
/// with room for `capacity` items. The capacity is kept below the limit
/// because the outside function panics where the room asked for cannot be
/// laid out.
#[verifier::external_body]
fn buffer_with_capacity(capacity: usize) -> (b: PredicateBuffer)
    requires
        capacity <= buffer_limit(),
    ensures
        buffered(b).len() == 0,
{
    PredicateBuffer { inner: smallvec::SmallVec::with_capacity(capacity) }
}

/// Calls `smallvec::SmallVec::push`, which appends `value`. The length is
/// kept below the limit because the outside function panics where the
/// vector cannot grow.
#[verifier::external_body]
fn buffer_push(b: &mut PredicateBuffer, value: GenericPredicate)
    requires
        buffered(*old(b)).len() < buffer_limit(),
    ensures
        buffered(*final(b)) == buffered(*old(b)).push(value),
{
    b.inner.push(value);
}

/// Calls `smallvec::SmallVec::extend`, which appends the items of `values`
/// in order. The length is kept below the limit because the outside function
/// panics where the vector cannot grow.
#[verifier::external_body]
fn buffer_extend(b: &mut PredicateBuffer, values: Vec<GenericPredicate>)
    requires
        buffered(*old(b)).len() + values@.len() <= buffer_limit(),
    ensures
        buffered(*final(b)) == buffered(*old(b)) + values@,
{
    b.inner.extend(values);
}

/// Calls `smallvec::SmallVec::into_vec`, which hands out the items in order.
#[verifier::external_body]
fn buffer_into_vec(b: PredicateBuffer) -> (v: Vec<GenericPredicate>)
    ensures
        v@ == buffered(b),
{
    b.inner.into_vec()
}

/// A buffer that takes predicates one by one and hands them on to a list in
/// the order in which they came. It never holds more than the limit: when
/// it is full, what it holds moves to the list.
pub struct PredicateSink {
    buffer: PredicateBuffer,
    held: usize,
}

impl PredicateSink {
    pub closed spec fn pending(&self) -> Seq<PredV> {
        preds_view(buffered(self.buffer))
    }

    pub closed spec fn wf(&self) -> bool {
        self.held == buffered(self.buffer).len() && self.held <= buffer_limit()
    }

    /// An empty sink with room for `wanted` predicates, or for as many as
    /// the limit allows.
    pub fn new(wanted: usize) -> (r: PredicateSink)
        ensures
            r.wf(),
            r.pending() == Seq::<PredV>::empty(),
    {
        let capacity = if wanted <= 65536 {
            wanted
        } else {
            65536
        };
        let buffer = buffer_with_capacity(capacity);
        let r = PredicateSink { buffer, held: 0 };
        assert(r.pending() =~= Seq::<PredV>::empty());
        r
    }

    /// Takes `value`. What is in `out` followed by what the sink holds grows
    /// by `value` at its end.
    pub fn push(&mut self, value: GenericPredicate, out: &mut Vec<GenericPredicate>)
        requires
            old(self).wf(),
        ensures
            final(self).wf(),
            preds_view(final(out)@) + final(self).pending() == (preds_view(old(out)@) + old(self).pending()).push(
                value@,
            ),
    {
        if self.held == 65536 {
            self.flush(out);
        }
        let ghost before = buffered(self.buffer);
        buffer_push(&mut self.buffer, value);
        self.held = self.held + 1;
        assert(preds_view(buffered(self.buffer)) =~= preds_view(before).push(value@));
        assert(preds_view(out@) + preds_view(before).push(value@) =~= (preds_view(out@) + preds_view(before)).push(
            value@,
        ));
    }

    /// Takes `values`, in order. What is in `out` followed by what the sink
    /// holds grows by `values` at its end.
    pub fn extend(&mut self, values: Vec<GenericPredicate>, out: &mut Vec<GenericPredicate>)
        requires
            old(self).wf(),
        ensures
            final(self).wf(),
            preds_view(final(out)@) + final(self).pending() == preds_view(old(out)@) + old(self).pending()
                + preds_view(values@),
    {
        if values.len() <= 65536 - self.held {
            let ghost before = buffered(self.buffer);
            let ghost added = values@;
            self.held = self.held + values.len();
            buffer_extend(&mut self.buffer, values);
            assert(preds_view(before + added) =~= preds_view(before) + preds_view(added));
            assert(preds_view(out@) + (preds_view(before) + preds_view(added)) =~= preds_view(out@) + preds_view(
                before,
            ) + preds_view(added));
        } else {
            self.flush(out);
            let ghost front = preds_view(out@);
            let ghost back = preds_view(values@);
            let mut values = values;
            out.append(&mut values);
            assert(preds_view(out@) =~= front + back);
            assert(preds_view(out@) + Seq::<PredV>::empty() =~= preds_view(out@));
        }
    }

    /// Moves what the sink holds to the end of `out`.
    pub fn flush(&mut self, out: &mut Vec<GenericPredicate>)
        requires
            old(self).wf(),
        ensures
            final(self).wf(),
            final(self).pending() == Seq::<PredV>::empty(),
            preds_view(final(out)@) == preds_view(old(out)@) + old(self).pending(),
    {
        let mut full = buffer_with_capacity(0);
        std::mem::swap(&mut self.buffer, &mut full);
        self.held = 0;
        let ghost front = preds_view(out@);
        let mut items = buffer_into_vec(full);
        let ghost back = preds_view(items@);
        out.append(&mut items);
        assert(preds_view(out@) =~= front + back);
        assert(self.pending() =~= Seq::<PredV>::empty());
    }
}

} // verus!
