//! Base traits for generators, ids and helper code, such as waiter functions
//! that retry until a generator hands out the next id.

use vstd::prelude::*;

use crate::dur::Dur;

verus! {

/// Basics of an id generator whose `next_id` needs only shared access.
pub trait IdGenerator {
    /// The potential error that could be returned from `next_id`.
    type Error;

    /// The actual id type that is returned from `next_id`.
    type Id;

    /// What a `next_id` call hands back, usually a `Result` of `Id` and
    /// `Error`.
    type Output;

    /// Whether the generator is in a usable state; established at
    /// construction.
    spec fn ready(&self) -> bool;

    /// Call to get the next available id.
    fn next_id(&self) -> Self::Output
        requires
            self.ready(),
    ;
}

/// Like [`IdGenerator`], but `next_id` mutates the generator and so needs
/// exclusive access.
pub trait IdGeneratorMut {
    /// The potential error that could be returned from `next_id`.
    type Error;

    /// The actual id type that is returned from `next_id`.
    type Id;

    /// What a `next_id` call hands back, usually a `Result` of `Id` and
    /// `Error`.
    type Output;

    /// Whether the generator is in a usable state; established at
    /// construction and kept by every `next_id` call.
    spec fn ready(&self) -> bool;

    /// Mutating call to get the next available id.
    fn next_id(&mut self) -> (r: Self::Output)
        requires
            old(self).ready(),
        ensures
            final(self).ready(),
    ;
}

/// For retrieving the wait until the next id could become available.
///
/// An error that carries such a hint is recoverable: a caller may wait that
/// long and retry. One that carries none is final for the attempt.
pub trait NextAvailId {
    /// The wait hint the value carries, if any.
    spec fn wait_hint(&self) -> Option<Dur>;

    /// Optional return to get the wait until the next available id.
    fn next_avail_id(&self) -> (r: Option<&Dur>)
        ensures
            match r {
                Some(d) => self.wait_hint() == Some(*d),
                None => self.wait_hint() is None,
            },
    ;
}

/// Basic snowflake structure: a value that can render itself as its packed
/// base type.
pub trait Id {
    /// What the id can be turned to and from.
    type BaseType;

    /// Whether the value's fields lie in range, so that packing is defined.
    spec fn id_ready(&self) -> bool;

    /// The packed base value the id renders as.
    spec fn base(&self) -> Self::BaseType;

    /// Creates a value of `BaseType` from the id.
    fn id(&self) -> (r: Self::BaseType)
        requires
            self.id_ready(),
        ensures
            r == self.base(),
    ;
}

/// Step-by-step assembly of an id from a timestamp, a sequence value and a
/// creation instant.
pub trait IdBuilder: Sized {
    /// The id type the builder produces.
    type Output;

    /// Records the timestamp in milliseconds; reports whether it fits the
    /// timestamp field.
    fn with_ts(&mut self, ts: u64) -> bool;

    /// Records the sequence value; reports whether it fits the sequence
    /// field.
    fn with_seq(&mut self, seq: u64) -> bool;

    /// Records the creation instant.
    fn with_dur(&mut self, dur: Dur);

    /// Builds the finished id.
    fn build(self) -> Self::Output;
}

/// Defines how a generator mints values of an id type: the field limits it
/// must respect, the validity of its partition segments, and how a finished
/// id is put together.
pub trait FromIdGenerator: Sized {
    /// The type holding the id segments the id embeds: one value, or a
    /// container of several.
    type IdSegType;

    /// Whether the compile-time field widths of the id are usable; the
    /// caller of a generator guarantees this when picking the widths.
    spec fn layout_valid() -> bool;

    /// Which segment values the id accepts.
    spec fn seg_ok(v: Self::IdSegType) -> bool;

    /// The largest millisecond timestamp the id's timestamp field can hold.
    spec fn ts_field_max() -> u64;

    /// The largest value the id's sequence field can hold.
    spec fn seq_field_max() -> u64;

    /// The id minted from a creation instant, a sequence value and the
    /// configured segments.
    spec fn made(ts: Dur, seq: u64, ids: Self::IdSegType) -> Self;

    /// The sequence field holds at least one value and its limit leaves room
    /// to count one past it.
    proof fn seq_max_bound()
        requires
            Self::layout_valid(),
        ensures
            1 <= Self::seq_field_max() < u64::MAX,
    ;

    /// The timestamp field limit, as a machine word.
    fn ts_limit() -> (r: u64)
        requires
            Self::layout_valid(),
        ensures
            r == Self::ts_field_max(),
    ;

    /// The sequence field limit, as a machine word.
    fn seq_limit() -> (r: u64)
        requires
            Self::layout_valid(),
        ensures
            r == Self::seq_field_max(),
    ;

    /// Validates a given `IdSegType`.
    fn valid_id(v: &Self::IdSegType) -> (r: bool)
        requires
            Self::layout_valid(),
        ensures
            r == Self::seg_ok(*v),
    ;

    /// Validates a given epoch value, in milliseconds.
    fn valid_epoch(e: &u64) -> (r: bool)
        requires
            Self::layout_valid(),
        ensures
            r == (*e <= Self::ts_field_max()),
    ;

    /// Whether a sequence value is beyond what the id can hold.
    fn max_sequence(seq: &u64) -> (r: bool)
        requires
            Self::layout_valid(),
        ensures
            r == (*seq > Self::seq_field_max()),
    ;

    /// Whether a timestamp is beyond what the id can hold.
    fn max_duration(ts: &Dur) -> (r: bool)
        requires
            Self::layout_valid(),
        ensures
            r == (ts.spec_millis() > Self::ts_field_max() as int),
    ;

    /// Creates the id from the current timestamp, sequence, and provided
    /// `IdSegType`.
    fn create(ts: Dur, seq: u64, ids: &Self::IdSegType) -> (r: Self)
        requires
            Self::layout_valid(),
            ts.wf(),
            ts.spec_millis() <= Self::ts_field_max() as int,
            1 <= seq <= Self::seq_field_max(),
            Self::seg_ok(*ids),
        ensures
            r == Self::made(ts, seq, *ids),
    ;
}

} // verus!
