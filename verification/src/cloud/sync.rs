//! Thread-safe snowflake generator: the tick/sequence state sits behind a
//! reference-counted, lock-guarded container, so clones of the generator
//! can be handed to concurrent callers.

use std::sync::Arc;

use vstd::prelude::*;
use vstd::rwlock::{RwLock, RwLockPredicate};

use crate::clock;
use crate::cloud::common::{step, step_spec, Counts};
use crate::dur::Dur;
use crate::error::Error;
use crate::traits::{FromIdGenerator, IdGenerator};

verus! {

/// The invariant the lock maintains on the guarded state: the counts stay
/// well formed between critical sections.
pub struct CountsPred {}

impl RwLockPredicate<Counts> for CountsPred {
    open spec fn inv(self, c: Counts) -> bool {
        c.wf()
    }
}

/// Relies on `Arc::clone`: the returned handle shares the same allocation,
/// so it carries the same value.
#[verifier::external_body]
pub(crate) fn arc_clone<T>(a: &Arc<T>) -> (r: Arc<T>)
    ensures
        r == *a,
{
    Arc::clone(a)
}

/// Thread-safe snowflake generator.
///
/// Mints snowflakes of type `F` with the provided epoch and id segments.
/// The tick/sequence state is guarded by a lock inside a shared,
/// reference-counted container; the critical section spans only the clock
/// read and the state transition, and the finished flake is built after the
/// lock is released.
pub struct MutexGenerator<F: FromIdGenerator> {
    /// The epoch as a span since the platform's standard time origin.
    pub ep: Dur,
    /// The configured id segments, fixed for the generator's lifetime.
    pub ids: F::IdSegType,
    /// The tick/sequence state, shared among clones and guarded by a lock.
    pub counts: Arc<RwLock<Counts, CountsPred>>,
}

impl<F: FromIdGenerator> MutexGenerator<F> {
    /// The generator was built by [`MutexGenerator::new`]: its layout is
    /// usable and its segments are valid; the lock maintains the state's
    /// own invariant.
    pub open spec fn wf(self) -> bool {
        &&& F::layout_valid()
        &&& F::seg_ok(self.ids)
        &&& self.ep.wf()
    }

    /// Returns a new `MutexGenerator`.
    ///
    /// Fails with `IdSegInvalid` when the id segments are invalid, with
    /// `EpochInvalid` when the epoch is beyond the timestamp field or ahead
    /// of the current time, and with `TimestampError` when the system clock
    /// cannot be read.
    pub fn new(epoch: u64, ids: F::IdSegType) -> (r: Result<Self, Error>)
        requires
            F::layout_valid(),
        ensures
            !F::seg_ok(ids) ==> r == Err::<Self, Error>(Error::IdSegInvalid),
            (F::seg_ok(ids) && epoch > F::ts_field_max()) ==> r == Err::<Self, Error>(
                Error::EpochInvalid,
            ),
            r matches Ok(g) ==> g.wf() && F::seg_ok(ids) && epoch <= F::ts_field_max() && g.ids
                == ids && g.ep.spec_millis() == epoch,
            r matches Err(e) ==> (e == Error::IdSegInvalid || e == Error::EpochInvalid || e
                == Error::TimestampError),
    {
        if !F::valid_id(&ids) {
            return Err(Error::IdSegInvalid);
        }
        if !F::valid_epoch(&epoch) {
            return Err(Error::EpochInvalid);
        }
        let now = match clock::unix_now() {
            Some(n) => n,
            None => {
                return Err(Error::TimestampError);
            },
        };
        let ep = Dur::from_millis(epoch);
        let prev_time = match now.checked_sub(&ep) {
            Some(d) => d,
            None => {
                // The epoch lies in the future of the clock reading.
                return Err(Error::EpochInvalid);
            },
        };
        let counts = Counts { sequence: 1, prev_time };
        Ok(MutexGenerator {
            ep,
            ids,
            counts: Arc::new(RwLock::new(counts, Ghost(CountsPred {}))),
        })
    }

    /// Returns the epoch, as a span since the platform's standard time
    /// origin.
    pub fn epoch(&self) -> (r: &Dur)
        ensures
            r == self.ep,
    {
        &self.ep
    }

    /// Returns the configured id segments.
    pub fn ids(&self) -> (r: &F::IdSegType)
        ensures
            r == self.ids,
    {
        &self.ids
    }

    /// Retrieves the next available id.
    ///
    /// Acquires the lock, reads the clock inside the critical section so
    /// lock-wait jitter cannot skew the same-tick decision, advances the
    /// guarded state by one [`step_spec`] transition, releases the lock,
    /// and only then builds the flake. On success the minted flake carries
    /// the measured timestamp, the assigned sequence and the configured
    /// segments; errors leave the guarded state as the step found it, with
    /// any `SequenceMaxReached` wait estimate positive and at most one
    /// millisecond.
    pub fn next_id(&self) -> (r: Result<F, Error>)
        requires
            self.wf(),
        ensures
            r matches Ok(f) ==> exists|c0: Counts, ts: Dur, seq: u64|
                #![trigger step_spec(c0, ts, F::ts_field_max(), F::seq_field_max()), F::made(ts, seq, self.ids)]
                {
                    &&& c0.wf()
                    &&& ts.wf()
                    &&& step_spec(c0, ts, F::ts_field_max(), F::seq_field_max()).1 == Ok::<
                        u64,
                        Error,
                    >(seq)
                    &&& f == F::made(ts, seq, self.ids)
                },
            r matches Err(e) ==> (e == Error::TimestampError || e == Error::TimestampMaxReached
                || e matches Error::SequenceMaxReached(_)),
            r matches Err(Error::SequenceMaxReached(d)) ==> 0 < d.spec_nanos() <= 1_000_000,
    {
        let (mut counts, handle) = self.counts.acquire_write();
        let ghost c0 = counts;
        // The clock is read under the lock: the elapsed time must be
        // measured after any wait for the previous holder.
        let now = match clock::unix_now() {
            Some(n) => n,
            None => {
                handle.release_write(counts);
                return Err(Error::TimestampError);
            },
        };
        let ts = match now.checked_sub(&self.ep) {
            Some(d) => d,
            None => {
                handle.release_write(counts);
                // The clock reads earlier than the epoch.
                return Err(Error::TimestampError);
            },
        };
        proof {
            F::seq_max_bound();
        }
        let res = step(&mut counts, &ts, F::ts_limit(), F::seq_limit());
        handle.release_write(counts);
        match res {
            Ok(seq) => {
                let flake = F::create(ts, seq, &self.ids);
                proof {
                    assert(step_spec(c0, ts, F::ts_field_max(), F::seq_field_max()).1 == Ok::<
                        u64,
                        Error,
                    >(seq));
                    assert(flake == F::made(ts, seq, self.ids));
                }
                Ok(flake)
            },
            Err(e) => Err(e),
        }
    }
}

impl<F: FromIdGenerator> Clone for MutexGenerator<F> where F::IdSegType: Copy {
    /// A clone carries the same epoch and segments and shares the same
    /// guarded tick/sequence state.
    fn clone(&self) -> (r: Self)
        ensures
            r == *self,
    {
        MutexGenerator { ep: self.ep, ids: self.ids, counts: arc_clone(&self.counts) }
    }
}

impl<F: FromIdGenerator> IdGenerator for MutexGenerator<F> {
    type Error = Error;

    type Id = F;

    type Output = Result<F, Error>;

    open spec fn ready(&self) -> bool {
        self.wf()
    }

    fn next_id(&self) -> (r: Result<F, Error>) {
        MutexGenerator::next_id(self)
    }
}

} // verus!
