//! A wrapper for byte sinks that counts the bytes the sink confirms as written.
//!
//! [`CountWrite`] owns a sink and keeps a running total of the bytes that the
//! sink reported as written. It does not buffer, retry or change anything: each
//! operation reaches the sink through exactly one call, and the sink's answer
//! comes back as it is.
//!
//! The wrapper asks nothing of the sink's type. Each operation takes, as a
//! function, the operation of the sink that it forwards to:
//!
//! ```text
//! let mut cw = CountWrite::from(Vec::new());
//! cw.write(b"abc", |sink, buf| std::io::Write::write(sink, buf))?;
//! cw.count() == 3
//! ```
//!
//! The count moves only on a write that the sink confirms, and by the number
//! of bytes that the sink reported, which may be less than what was offered.
//! The contracts state this over [`confirmed`], and say of the sink that it is
//! left exactly as that one forwarded call leaves it. [`laws`] holds what
//! follows for whole runs of writes, [`poll`] the operations on sinks that are
//! polled.

pub mod laws;
pub mod poll;

use vstd::prelude::*;
use vstd::std_specs::convert::FromSpecImpl;

verus! {

/// The number of bytes that the outcome of one write confirms: the reported
/// length of a successful write, nothing for a failed one.
pub open spec fn confirmed<E>(outcome: Result<usize, E>) -> nat {
    match outcome {
        Ok(written) => written as nat,
        Err(_) => 0,
    }
}

/// A wrapper around a byte sink that counts the total number of bytes the
/// sink has confirmed as written.
///
/// The wrapper owns the sink. Its count starts at zero and moves only when a
/// write comes back successful, by exactly the number of bytes the sink
/// reported. Bytes that were offered but not accepted are not counted.
pub struct CountWrite<W> {
    inner: W,
    count: u64,
}

impl<W> CountWrite<W> {
    /// The sink held by the wrapper.
    pub closed spec fn inner(&self) -> W {
        self.inner
    }

    /// The number of bytes counted so far.
    pub closed spec fn spec_count(&self) -> u64 {
        self.count
    }

    /// The wrapper that holds `inner` and has counted nothing yet.
    pub closed spec fn fresh(inner: W) -> Self {
        CountWrite { inner, count: 0 }
    }

    /// Returns the number of bytes successfully written so far.
    #[verifier::when_used_as_spec(spec_count)]
    pub fn count(&self) -> (n: u64)
        ensures
            n == self.spec_count(),
    {
        self.count
    }

    /// Extracts the inner sink, discarding this wrapper.
    pub fn into_inner(self) -> (inner: W)
        ensures
            inner == self.inner(),
    {
        self.inner
    }

    /// Accounts for the outcome of one write that was forwarded to the sink,
    /// and hands the outcome back unchanged.
    ///
    /// A success adds the reported length to the count. A failure leaves the
    /// count as it was. The sink itself is not touched.
    pub fn record_write<E>(&mut self, outcome: Result<usize, E>) -> (r: Result<usize, E>)
        requires
            old(self).count() + confirmed(outcome) <= u64::MAX,
        ensures
            r == outcome,
            final(self).inner() == old(self).inner(),
            final(self).count() == old(self).count() + confirmed(outcome),
            outcome is Err ==> final(self).count() == old(self).count(),
            old(self).count() <= final(self).count(),
    {
        match outcome {
            Ok(written) => {
                self.count = self.count + written as u64;
                Ok(written)
            },
            Err(e) => Err(e),
        }
    }

    /// Offers `buf` to the sink through exactly one call of `forward`, counts
    /// what the sink confirms, and returns the sink's answer unchanged.
    ///
    /// A partial write is counted as it is reported and is not retried.
    pub fn write<E, F>(&mut self, buf: &[u8], forward: F) -> (r: Result<usize, E>) where
        F: FnOnce(&mut W, &[u8]) -> Result<usize, E>,

        requires
            forall|sink: &mut W|
                mut_ref_current(sink) == old(self).inner() ==> call_requires(forward, (sink, buf)),
            forall|sink: &mut W, outcome: Result<usize, E>|
                mut_ref_current(sink) == old(self).inner() && call_ensures(
                    forward,
                    (sink, buf),
                    outcome,
                ) ==> old(self).count() + confirmed(outcome) <= u64::MAX,
        ensures
            exists|sink: &mut W|
                mut_ref_current(sink) == old(self).inner()
                    && mut_ref_future(sink) == final(self).inner()
                    && call_ensures(forward, (sink, buf), r),
            final(self).count() == old(self).count() + confirmed(r),
            r is Err ==> final(self).count() == old(self).count(),
            old(self).count() <= final(self).count(),
    {
        let outcome = forward(&mut self.inner, buf);
        self.record_write(outcome)
    }

    /// Flushes the sink through exactly one call of `forward` and returns the
    /// sink's answer unchanged. Nothing is counted.
    pub fn flush<E, F>(&mut self, forward: F) -> (r: Result<(), E>) where
        F: FnOnce(&mut W) -> Result<(), E>,

        requires
            forall|sink: &mut W|
                mut_ref_current(sink) == old(self).inner() ==> call_requires(forward, (sink,)),
        ensures
            exists|sink: &mut W|
                mut_ref_current(sink) == old(self).inner()
                    && mut_ref_future(sink) == final(self).inner()
                    && call_ensures(forward, (sink,), r),
            final(self).count() == old(self).count(),
    {
        forward(&mut self.inner)
    }
}

impl<W> From<W> for CountWrite<W> {
    /// Wraps `inner` with a count of zero.
    fn from(inner: W) -> (wrapper: Self)
        ensures
            wrapper.inner() == inner,
            wrapper.count() == 0,
    {
        CountWrite { inner, count: 0 }
    }
}

impl<W> FromSpecImpl<W> for CountWrite<W> {
    open spec fn obeys_from_spec() -> bool {
        true
    }

    open spec fn from_spec(inner: W) -> Self {
        Self::fresh(inner)
    }
}

} // verus!
