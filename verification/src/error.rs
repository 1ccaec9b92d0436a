//! Possible errors for snowclouds and snowflakes.

use vstd::prelude::*;

use crate::dur::Dur;
use crate::traits::NextAvailId;

verus! {

/// Everything that can go wrong when validating, decoding or generating a
/// snowflake.
///
/// Only `SequenceMaxReached` carries extra information: the estimated wait
/// until the next millisecond, after which generation can be retried.
#[derive(Clone, Copy, Debug, PartialEq, Eq, Structural)]
pub enum Error {
    /// A provided primary id is less than 0 or greater than the max value
    /// specified by a snowcloud.
    PrimaryIdInvalid,
    /// A provided id segment is invalid for the chosen snowflake format.
    IdSegInvalid,
    /// A provided epoch or timestamp is outside the timestamp field's range.
    EpochInvalid,
    /// A provided sequence is less than 0 or greater than the max value
    /// specified by a snowcloud.
    SequenceInvalid,
    /// The max possible timestamp value has been reached when generating a
    /// new id; the generator's timestamp field is exhausted for good.
    TimestampMaxReached,
    /// The max possible sequence value has been reached when generating a
    /// new id. The carried wait is an estimate of how long to wait for the
    /// next millisecond.
    SequenceMaxReached(Dur),
    /// Failed to read a valid timestamp from the system clock.
    TimestampError,
    /// Error when attempting to lock the shared generator state.
    MutexError,
    /// The provided integer is not a valid snowflake.
    InvalidId,
}

impl Error {
    /// A short description of the error.
    pub fn message(&self) -> (r: &'static str)
        ensures
            r@.len() > 0,
    {
        let r = match self {
            Error::PrimaryIdInvalid => "primary id invalid",
            Error::IdSegInvalid => "id seg invalid",
            Error::EpochInvalid => "epoch invalid",
            Error::SequenceInvalid => "sequence invalid",
            Error::TimestampMaxReached => "timestamp max reached",
            Error::SequenceMaxReached(_) => "sequence max reached",
            Error::TimestampError => "timestamp error",
            Error::MutexError => "mutex error",
            Error::InvalidId => "invalid id",
        };
        proof {
            reveal_strlit("primary id invalid");
            reveal_strlit("id seg invalid");
            reveal_strlit("epoch invalid");
            reveal_strlit("sequence invalid");
            reveal_strlit("timestamp max reached");
            reveal_strlit("sequence max reached");
            reveal_strlit("timestamp error");
            reveal_strlit("mutex error");
            reveal_strlit("invalid id");
        }
        r
    }
}

impl NextAvailId for Error {
    /// Only `SequenceMaxReached` carries a wait hint.
    open spec fn wait_hint(&self) -> Option<Dur> {
        match self {
            Error::SequenceMaxReached(d) => Some(*d),
            _ => None,
        }
    }

    fn next_avail_id(&self) -> (r: Option<&Dur>) {
        match self {
            Error::SequenceMaxReached(dur) => Some(dur),
            _ => None,
        }
    }
}

} // verus!
