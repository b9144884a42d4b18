//! The counting wrapper over sinks that are polled rather than blocked on.
//!
//! A polled operation either finishes at once or answers `Pending`. The sink
//! has then arranged to wake the caller, and the caller polls again. The
//! wrapper never waits and never polls again on its own: a pending write
//! counts nothing.

use crate::{confirmed, CountWrite};
use core::task::Poll;
use vstd::prelude::*;

verus! {

/// Makes `core::task::Poll` known to the verifier, with its two variants as
/// `core` defines them: `Ready` with a value, or `Pending`. Nothing is claimed
/// of the type beyond its definition.
#[verifier::external_type_specification]
#[verifier::reject_recursive_types(T)]
pub struct ExPoll<T>(Poll<T>);

/// The number of bytes that the answer to one polled write confirms: what the
/// finished write confirms, and nothing while the write is still pending.
pub open spec fn confirmed_by_poll<E>(answer: Poll<Result<usize, E>>) -> nat {
    match answer {
        Poll::Ready(outcome) => confirmed(outcome),
        Poll::Pending => 0,
    }
}

impl<W> CountWrite<W> {
    /// Accounts for the answer of one polled write that was forwarded to the
    /// sink, and hands the answer back unchanged.
    ///
    /// Only a write that is ready and successful is counted. A pending or a
    /// failed write leaves the count as it was. The sink itself is not
    /// touched.
    pub fn record_poll_write<E>(&mut self, answer: Poll<Result<usize, E>>) -> (r: Poll<
        Result<usize, E>,
    >)
        requires
            old(self).count() + confirmed_by_poll(answer) <= u64::MAX,
        ensures
            r == answer,
            final(self).inner() == old(self).inner(),
            final(self).count() == old(self).count() + confirmed_by_poll(answer),
            !(answer matches Poll::Ready(Ok(_))) ==> final(self).count() == old(self).count(),
            old(self).count() <= final(self).count(),
    {
        match answer {
            Poll::Ready(outcome) => Poll::Ready(self.record_write(outcome)),
            Poll::Pending => Poll::Pending,
        }
    }

    /// Offers `buf` to the sink through exactly one call of `forward`, counts
    /// what the sink confirms, and returns the sink's answer unchanged.
    ///
    /// While the sink answers `Pending` nothing is counted, and polling again
    /// is left to the caller.
    pub fn poll_write<E, F>(&mut self, buf: &[u8], forward: F) -> (r: Poll<Result<usize, E>>) where
        F: FnOnce(&mut W, &[u8]) -> Poll<Result<usize, E>>,

        requires
            forall|sink: &mut W|
                mut_ref_current(sink) == old(self).inner() ==> call_requires(forward, (sink, buf)),
            forall|sink: &mut W, answer: Poll<Result<usize, E>>|
                mut_ref_current(sink) == old(self).inner() && call_ensures(
                    forward,
                    (sink, buf),
                    answer,
                ) ==> old(self).count() + confirmed_by_poll(answer) <= u64::MAX,
        ensures
            exists|sink: &mut W|
                mut_ref_current(sink) == old(self).inner()
                    && mut_ref_future(sink) == final(self).inner()
                    && call_ensures(forward, (sink, buf), r),
            final(self).count() == old(self).count() + confirmed_by_poll(r),
            !(r matches Poll::Ready(Ok(_))) ==> final(self).count() == old(self).count(),
            old(self).count() <= final(self).count(),
    {
        let answer = forward(&mut self.inner, buf);
        self.record_poll_write(answer)
    }

    /// Polls the sink to flush through exactly one call of `forward` and
    /// returns the sink's answer unchanged. Nothing is counted.
    pub fn poll_flush<E, F>(&mut self, forward: F) -> (r: Poll<Result<(), E>>) where
        F: FnOnce(&mut W) -> Poll<Result<(), E>>,

        requires
            forall|sink: &mut W|
                mut_ref_current(sink) == old(self).inner() ==> call_requires(forward, (sink,)),
        ensures
            exists|sink: &mut W|
                mut_ref_current(sink) == old(self).inner()
                    && mut_ref_future(sink) == final(self).inner()
                    && call_ensures(forward, (sink,), r),
            final(self).count() == old(self).count(),
    {
        forward(&mut self.inner)
    }

    /// Polls the sink to shut down through exactly one call of `forward` and
    /// returns the sink's answer unchanged. Nothing is counted.
    pub fn poll_shutdown<E, F>(&mut self, forward: F) -> (r: Poll<Result<(), E>>) where
        F: FnOnce(&mut W) -> Poll<Result<(), E>>,

        requires
            forall|sink: &mut W|
                mut_ref_current(sink) == old(self).inner() ==> call_requires(forward, (sink,)),
        ensures
            exists|sink: &mut W|
                mut_ref_current(sink) == old(self).inner()
                    && mut_ref_future(sink) == final(self).inner()
                    && call_ensures(forward, (sink,), r),
            final(self).count() == old(self).count(),
    {
        forward(&mut self.inner)
    }
}

} // verus!
