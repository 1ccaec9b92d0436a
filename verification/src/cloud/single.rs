//! Non-thread-safe generator: the tick/sequence state is held directly, so
//! `next_id` takes exclusive access.

use vstd::prelude::*;

use crate::clock;
use crate::cloud::common::{step, step_spec, Counts};
use crate::dur::Dur;
use crate::error::Error;
use crate::traits::{FromIdGenerator, IdGeneratorMut};

verus! {

/// Simple snowflake generator.
///
/// Mints snowflakes of type `F` with the provided epoch and id segments.
/// The epoch is a date in milliseconds, at or after the platform's standard
/// time origin but not after now. The sequence value always starts at one.
/// `next_id` mutates the generator, so sharing it across callers takes
/// exclusive access; [`sync::MutexGenerator`] is the lock-guarded
/// alternative.
pub struct SingleThread<F: FromIdGenerator> {
    /// The epoch as a span since the platform's standard time origin.
    pub ep: Dur,
    /// The configured id segments, fixed for the generator's lifetime.
    pub ids: F::IdSegType,
    /// The tick/sequence state.
    pub counts: Counts,
}

impl<F: FromIdGenerator> SingleThread<F> {
    /// The generator was built by [`SingleThread::new`]: its layout is usable,
    /// its segments are valid, and its state is well formed.
    pub open spec fn wf(self) -> bool {
        &&& F::layout_valid()
        &&& F::seg_ok(self.ids)
        &&& self.ep.wf()
        &&& self.counts.wf()
    }

    /// Returns a new generator.
    ///
    /// Fails with `IdSegInvalid` when the id segments are invalid, with
    /// `EpochInvalid` when the epoch is beyond the timestamp field or ahead
    /// of the current time, and with `TimestampError` when the system clock
    /// cannot be read.
    pub fn new(epoch: u64, ids: F::IdSegType) -> (r: Result<Self, Error>)
        requires
            F::layout_valid(),
        ensures
            !F::seg_ok(ids) ==> r == Err::<Self, Error>(Error::IdSegInvalid),
            (F::seg_ok(ids) && epoch > F::ts_field_max()) ==> r == Err::<Self, Error>(
                Error::EpochInvalid,
            ),
            r matches Ok(g) ==> g.wf() && F::seg_ok(ids) && epoch <= F::ts_field_max() && g.ids
                == ids && g.ep.spec_millis() == epoch && g.counts.sequence == 1,
            r matches Err(e) ==> (e == Error::IdSegInvalid || e == Error::EpochInvalid || e
                == Error::TimestampError),
    {
        if !F::valid_id(&ids) {
            return Err(Error::IdSegInvalid);
        }
        if !F::valid_epoch(&epoch) {
            return Err(Error::EpochInvalid);
        }
        let now = match clock::unix_now() {
            Some(n) => n,
            None => {
                return Err(Error::TimestampError);
            },
        };
        let ep = Dur::from_millis(epoch);
        let prev_time = match now.checked_sub(&ep) {
            Some(d) => d,
            None => {
                // The epoch lies in the future of the clock reading.
                return Err(Error::EpochInvalid);
            },
        };
        Ok(SingleThread { ep, ids, counts: Counts { sequence: 1, prev_time } })
    }

    /// Returns the epoch, as a span since the platform's standard time
    /// origin.
    pub fn epoch(&self) -> (r: &Dur)
        ensures
            r == self.ep,
    {
        &self.ep
    }

    /// Returns the configured id segments.
    pub fn ids(&self) -> (r: &F::IdSegType)
        ensures
            r == self.ids,
    {
        &self.ids
    }

    /// Retrieves the next available id.
    ///
    /// Reads the clock and advances the tick/sequence state by one
    /// [`step_spec`] transition; on success the minted flake carries the
    /// measured timestamp, the assigned sequence and the configured
    /// segments. On any error the state is unchanged: `TimestampError` when
    /// the clock cannot be read or ran backwards past the epoch, the step's
    /// own errors otherwise, with any `SequenceMaxReached` wait estimate
    /// positive and at most one millisecond.
    pub fn next_id(&mut self) -> (r: Result<F, Error>)
        requires
            old(self).wf(),
        ensures
            final(self).wf(),
            final(self).ep == old(self).ep,
            final(self).ids == old(self).ids,
            r matches Ok(f) ==> exists|ts: Dur, seq: u64|
                {
                    &&& ts.wf()
                    &&& step_spec(old(self).counts, ts, F::ts_field_max(), F::seq_field_max()) == (
                        final(self).counts,
                        Ok::<u64, Error>(seq),
                    )
                    &&& f == #[trigger] F::made(ts, seq, old(self).ids)
                },
            r is Err ==> *final(self) == *old(self),
            r matches Err(e) ==> (e == Error::TimestampError || e == Error::TimestampMaxReached
                || e matches Error::SequenceMaxReached(_)),
            r matches Err(Error::SequenceMaxReached(d)) ==> 0 < d.spec_nanos() <= 1_000_000,
    {
        let now = match clock::unix_now() {
            Some(n) => n,
            None => {
                return Err(Error::TimestampError);
            },
        };
        let ts = match now.checked_sub(&self.ep) {
            Some(d) => d,
            None => {
                // The clock reads earlier than the epoch.
                return Err(Error::TimestampError);
            },
        };
        proof {
            F::seq_max_bound();
        }
        match step(&mut self.counts, &ts, F::ts_limit(), F::seq_limit()) {
            Ok(seq) => {
                let flake = F::create(ts, seq, &self.ids);
                proof {
                    assert(step_spec(old(self).counts, ts, F::ts_field_max(), F::seq_field_max())
                        == (self.counts, Ok::<u64, Error>(seq)));
                    assert(flake == F::made(ts, seq, old(self).ids));
                }
                Ok(flake)
            },
            Err(e) => Err(e),
        }
    }
}

impl<F: FromIdGenerator> Clone for SingleThread<F> where F::IdSegType: Copy {
    /// A clone carries the same epoch, segments and state; the copies then
    /// advance independently.
    fn clone(&self) -> (r: Self)
        ensures
            r == *self,
    {
        SingleThread { ep: self.ep, ids: self.ids, counts: self.counts }
    }
}

impl<F: FromIdGenerator> IdGeneratorMut for SingleThread<F> {
    type Error = Error;

    type Id = F;

    type Output = Result<F, Error>;

    open spec fn ready(&self) -> bool {
        self.wf()
    }

    fn next_id(&mut self) -> (r: Result<F, Error>) {
        SingleThread::next_id(self)
    }
}

} // verus!
