//! Methods for waiting on the next available id from a snowcloud.
//!
//! Currently contains only blocking methods, but others could be added in
//! the future.

use vstd::prelude::*;

use crate::clock;
use crate::dur::Dur;
use crate::traits::{IdGenerator, IdGeneratorMut, NextAvailId};

verus! {

/// How many clock polls a single wait may spend before giving up the spin;
/// the deadline is normally hit long before this.
pub const SPIN_POLL_LIMIT: u64 = 4_000_000_000;

/// Blocks the current thread for roughly the given span by polling the
/// clock until the deadline passes. Returns early when the clock cannot be
/// read or the poll budget runs out.
fn block_duration(dur: &Dur) {
    let start = match clock::unix_now() {
        Some(n) => n,
        None => {
            return ;
        },
    };
    let deadline: u128 = start.total_nanos() + dur.total_nanos();
    let mut polls: u64 = SPIN_POLL_LIMIT;
    while polls > 0
        decreases polls,
    {
        polls = polls - 1;
        match clock::unix_now() {
            Some(now) => {
                if now.total_nanos() >= deadline {
                    return ;
                }
            },
            None => {
                return ;
            },
        }
    }
}

/// Blocks the current thread for the next available id, with a given number
/// of attempts.
///
/// Each attempt asks the generator for an id. A success or an error without
/// a wait hint is returned at once; an error carrying a hint is waited out
/// and retried. When the attempt budget runs out the result is `None`, so a
/// caller can tell "no id was available in time" from a generator failure.
pub fn blocking_next_id<C>(cloud: &C, attempts: u8) -> (r: Option<
    Result<<C as IdGenerator>::Id, <C as IdGenerator>::Error>,
>) where
    C: IdGenerator<Output = Result<<C as IdGenerator>::Id, <C as IdGenerator>::Error>>,
    <C as IdGenerator>::Error: NextAvailId,

    requires
        cloud.ready(),
    ensures
        attempts == 0 ==> r is None,
        (match r {
            Some(res) => res matches Err(e) ==> e.wait_hint() is None,
            None => true,
        }),
{
    let mut left = attempts;
    while left != 0
        invariant
            cloud.ready(),
            left <= attempts,
        decreases left,
    {
        match cloud.next_id() {
            Ok(sf) => {
                return Some(Ok(sf));
            },
            Err(err) => {
                match err.next_avail_id() {
                    Some(dur) => {
                        let wait = *dur;
                        block_duration(&wait);
                    },
                    None => {
                        return Some(Err(err));
                    },
                }
            },
        }
        left = left - 1;
    }
    None
}

/// Mutable version of [`blocking_next_id`], for generators whose `next_id`
/// takes exclusive access.
pub fn blocking_next_id_mut<C>(cloud: &mut C, attempts: u8) -> (r: Option<
    Result<<C as IdGeneratorMut>::Id, <C as IdGeneratorMut>::Error>,
>) where
    C: IdGeneratorMut<
        Output = Result<<C as IdGeneratorMut>::Id, <C as IdGeneratorMut>::Error>,
    >,
    <C as IdGeneratorMut>::Error: NextAvailId,

    requires
        old(cloud).ready(),
    ensures
        final (cloud).ready(),
        attempts == 0 ==> r is None,
        (match r {
            Some(res) => res matches Err(e) ==> e.wait_hint() is None,
            None => true,
        }),
{
    let mut left = attempts;
    while left != 0
        invariant
            cloud.ready(),
            left <= attempts,
        decreases left,
    {
        match cloud.next_id() {
            Ok(sf) => {
                return Some(Ok(sf));
            },
            Err(err) => {
                match err.next_avail_id() {
                    Some(dur) => {
                        let wait = *dur;
                        block_duration(&wait);
                    },
                    None => {
                        return Some(Err(err));
                    },
                }
            },
        }
        left = left - 1;
    }
    None
}

} // verus!
