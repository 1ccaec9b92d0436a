//! The basic single-segment snowflake over `i64`: a millisecond timestamp,
//! one primary id and a sequence counter packed most-significant-first.
//!
//! Since `ts` is a full-resolution span it only has full accuracy when the
//! flake comes fresh out of a generator; a flake rebuilt from an `i64` or
//! from parts keeps millisecond accuracy only.

use vstd::prelude::*;
use vstd::arithmetic::power2::pow2;

use crate::codec;
use crate::codec::{field_max, pack3, place};
use crate::dur::Dur;
use crate::error::Error;

pub mod dual;
pub mod segments;
pub mod signed;
pub mod unsigned;

verus! {

/// Id generated from a snowcloud, decoded into timestamp, primary id and
/// sequence. The bit widths of the three fields are the const parameters
/// `TS`, `PID` and `SEQ`; they must each be positive and sum to at most 63
/// so the packed id keeps its sign bit clear.
#[derive(Eq, Clone, Copy, Debug)]
pub struct Snowflake<const TS: u8, const PID: u8, const SEQ: u8> {
    pub ts: Dur,
    pub tsm: i64,
    pub pid: i64,
    pub seq: i64,
}

impl<const TS: u8, const PID: u8, const SEQ: u8> Snowflake<TS, PID, SEQ> {
    /// The field widths the caller picked are usable: each field is at least
    /// one bit wide and together they leave the sign bit clear.
    pub open spec fn layout_ok() -> bool {
        0 < TS && 0 < PID && 0 < SEQ && TS + PID + SEQ <= 63
    }

    /// Max value that a timestamp can be.
    pub open spec fn max_timestamp_spec() -> int {
        field_max(TS as nat)
    }

    /// Max value that a primary id can be.
    pub open spec fn max_primary_id_spec() -> int {
        field_max(PID as nat)
    }

    /// Max value a sequence can be.
    pub open spec fn max_sequence_spec() -> int {
        field_max(SEQ as nat)
    }

    /// Total bits to shift the timestamp.
    pub open spec fn timestamp_shift_spec() -> nat {
        (PID + SEQ) as nat
    }

    /// Total bits to shift the primary id.
    pub open spec fn primary_id_shift_spec() -> nat {
        SEQ as nat
    }

    /// All decoded fields lie in their field's range.
    pub open spec fn wf(self) -> bool {
        &&& 0 <= self.tsm <= Self::max_timestamp_spec()
        &&& 0 <= self.pid <= Self::max_primary_id_spec()
        &&& 0 <= self.seq <= Self::max_sequence_spec()
        &&& self.ts.wf()
    }

    /// The packed integer this flake renders as.
    pub open spec fn spec_id(self) -> int {
        pack3(self.tsm as int, self.pid as int, self.seq as int, PID as nat, SEQ as nat)
    }

    /// The timestamp field a packed integer decodes to.
    pub open spec fn spec_unpack_ts(id: int) -> int {
        (id / pow2((PID + SEQ) as nat) as int) % pow2(TS as nat) as int
    }

    /// The primary id field a packed integer decodes to.
    pub open spec fn spec_unpack_pid(id: int) -> int {
        (id / pow2(SEQ as nat) as int) % pow2(PID as nat) as int
    }

    /// The sequence field a packed integer decodes to.
    pub open spec fn spec_unpack_seq(id: int) -> int {
        id % pow2(SEQ as nat) as int
    }

    /// Max value that a timestamp can be.
    pub fn max_timestamp() -> (r: i64)
        requires
            Self::layout_ok(),
        ensures
            r == Self::max_timestamp_spec(),
    {
        proof {
            codec::lemma_field_max_fits_i64(TS as nat);
        }
        codec::max_u64(TS) as i64
    }

    /// Max value that a primary id can be.
    pub fn max_primary_id() -> (r: i64)
        requires
            Self::layout_ok(),
        ensures
            r == Self::max_primary_id_spec(),
    {
        proof {
            codec::lemma_field_max_fits_i64(PID as nat);
        }
        codec::max_u64(PID) as i64
    }

    /// Max value a sequence can be.
    pub fn max_sequence() -> (r: i64)
        requires
            Self::layout_ok(),
        ensures
            r == Self::max_sequence_spec(),
    {
        proof {
            codec::lemma_field_max_fits_i64(SEQ as nat);
        }
        codec::max_u64(SEQ) as i64
    }

    /// Total bits to shift the timestamp.
    pub fn timestamp_shift() -> (r: i64)
        requires
            Self::layout_ok(),
        ensures
            r == Self::timestamp_shift_spec(),
    {
        PID as i64 + SEQ as i64
    }

    /// Total bits to shift the primary id.
    pub fn primary_id_shift() -> (r: i64)
        requires
            Self::layout_ok(),
        ensures
            r == Self::primary_id_shift_spec(),
    {
        SEQ as i64
    }

    /// Bit mask for the timestamp field.
    pub fn timestamp_mask() -> (r: i64)
        requires
            Self::layout_ok(),
        ensures
            r == Self::max_timestamp_spec() * pow2(Self::timestamp_shift_spec()),
    {
        let shift: u8 = PID + SEQ;
        proof {
            vstd::arithmetic::power2::lemma_pow2_pos(TS as nat);
            vstd::arithmetic::power2::lemma_pow2_pos(shift as nat);
            codec::lemma_field_max_widens(TS as nat, (64 - shift) as nat);
            codec::lemma_place_bound(
                Self::max_timestamp_spec(),
                TS as nat,
                shift as nat,
                0,
            );
            codec::lemma_field_max_fits_i64((TS + shift) as nat);
        }
        codec::combine(codec::max_u64(TS), 0, shift) as i64
    }

    /// Bit mask for the primary id field.
    pub fn primary_id_mask() -> (r: i64)
        requires
            Self::layout_ok(),
        ensures
            r == Self::max_primary_id_spec() * pow2(Self::primary_id_shift_spec()),
    {
        proof {
            vstd::arithmetic::power2::lemma_pow2_pos(PID as nat);
            vstd::arithmetic::power2::lemma_pow2_pos(SEQ as nat);
            codec::lemma_field_max_widens(PID as nat, (64 - SEQ) as nat);
            codec::lemma_place_bound(
                Self::max_primary_id_spec(),
                PID as nat,
                SEQ as nat,
                0,
            );
            codec::lemma_field_max_fits_i64((PID + SEQ) as nat);
        }
        codec::combine(codec::max_u64(PID), 0, SEQ) as i64
    }

    /// Bit mask for the sequence field.
    pub fn sequence_mask() -> (r: i64)
        requires
            Self::layout_ok(),
        ensures
            r == Self::max_sequence_spec(),
    {
        Self::max_sequence()
    }

    /// Returns the creation instant.
    ///
    /// If the flake was created outside of a snowcloud then this will have
    /// less precision.
    pub fn duration(&self) -> (r: &Dur)
        ensures
            r == self.ts,
    {
        &self.ts
    }

    /// Returns timestamp.
    pub fn timestamp(&self) -> (r: &i64)
        ensures
            r == self.tsm,
    {
        &self.tsm
    }

    /// Returns primary id reference.
    pub fn primary_id(&self) -> (r: &i64)
        ensures
            r == self.pid,
    {
        &self.pid
    }

    /// Returns sequence reference.
    pub fn sequence(&self) -> (r: &i64)
        ensures
            r == self.seq,
    {
        &self.seq
    }

    /// Generates a snowflake from the provided parts.
    ///
    /// Checks are performed on each part to ensure that they are valid for
    /// the given snowflake.
    pub fn from_parts(tsm: i64, pid: i64, seq: i64) -> (r: Result<Self, Error>)
        requires
            Self::layout_ok(),
        ensures
            (tsm < 0 || tsm > Self::max_timestamp_spec()) ==> r == Err::<Self, Error>(
                Error::EpochInvalid,
            ),
            (0 <= tsm <= Self::max_timestamp_spec() && (pid < 0 || pid
                > Self::max_primary_id_spec())) ==> r == Err::<Self, Error>(
                Error::PrimaryIdInvalid,
            ),
            (0 <= tsm <= Self::max_timestamp_spec() && 0 <= pid <= Self::max_primary_id_spec()
                && (seq < 0 || seq > Self::max_sequence_spec())) ==> r == Err::<Self, Error>(
                Error::SequenceInvalid,
            ),
            (0 <= tsm <= Self::max_timestamp_spec() && 0 <= pid <= Self::max_primary_id_spec()
                && 0 <= seq <= Self::max_sequence_spec()) ==> (r matches Ok(f) && f.tsm == tsm
                && f.pid == pid && f.seq == seq && f.wf() && f.ts.spec_millis() == tsm),
    {
        if tsm < 0 || tsm > Self::max_timestamp() {
            return Err(Error::EpochInvalid);
        }
        if pid < 0 || pid > Self::max_primary_id() {
            return Err(Error::PrimaryIdInvalid);
        }
        if seq < 0 || seq > Self::max_sequence() {
            return Err(Error::SequenceInvalid);
        }
        let ts = Dur::from_millis(tsm as u64);
        Ok(Snowflake { ts, tsm, pid, seq })
    }

    /// Splits the current snowflake into its individual parts.
    pub fn into_parts(self) -> (r: (i64, i64, i64))
        ensures
            r == (self.tsm, self.pid, self.seq),
    {
        (self.tsm, self.pid, self.seq)
    }

    /// Generates the unique id: the three fields packed into a non-negative
    /// `i64`.
    pub fn id(&self) -> (r: i64)
        requires
            Self::layout_ok(),
            self.wf(),
        ensures
            r == self.spec_id(),
            0 <= r,
    {
        proof {
            codec::lemma_field_max_widens(TS as nat, (64 - PID) as nat);
            codec::lemma_place_bound(self.tsm as int, TS as nat, PID as nat, self.pid as int);
            codec::lemma_field_max_widens((TS + PID) as nat, (64 - SEQ) as nat);
            codec::lemma_place_bound(
                place(self.tsm as int, PID as nat, self.pid as int),
                (TS + PID) as nat,
                SEQ as nat,
                self.seq as int,
            );
            codec::lemma_field_max_fits_i64((TS + PID + SEQ) as nat);
        }
        let inner = codec::combine(self.tsm as u64, self.pid as u64, PID);
        codec::combine(inner, self.seq as u64, SEQ) as i64
    }

    /// Attempts to rebuild a snowflake from the given `i64`.
    ///
    /// The integer must be non-negative; the bit pattern is otherwise
    /// trusted, and each field is cut out by mask and shift.
    pub fn try_from(id: &i64) -> (r: Result<Self, Error>)
        requires
            Self::layout_ok(),
        ensures
            *id < 0 ==> r == Err::<Self, Error>(Error::InvalidId),
            *id >= 0 ==> (r matches Ok(f) && f.wf() && f.tsm == Self::spec_unpack_ts(*id as int)
                && f.pid == Self::spec_unpack_pid(*id as int) && f.seq == Self::spec_unpack_seq(
                *id as int,
            ) && f.ts.spec_millis() == f.tsm),
    {
        if *id < 0 {
            return Err(Error::InvalidId);
        }
        let u = *id as u64;
        let seq = codec::take_low(u, SEQ);
        let above_seq = codec::shift_out(u, SEQ);
        let pid = codec::take_low(above_seq, PID);
        let above_pid = codec::shift_out(above_seq, PID);
        let tsm = codec::take_low(above_pid, TS);
        proof {
            vstd::arithmetic::div_mod::lemma_div_denominator(
                u as int,
                pow2(SEQ as nat) as int,
                pow2(PID as nat) as int,
            );
            vstd::arithmetic::power2::lemma_pow2_adds(SEQ as nat, PID as nat);
            vstd::arithmetic::power2::lemma_pow2_pos(SEQ as nat);
            vstd::arithmetic::power2::lemma_pow2_pos(PID as nat);
            assert((SEQ + PID) as nat == (PID + SEQ) as nat);
            codec::lemma_field_max_fits_i64(TS as nat);
            codec::lemma_field_max_fits_i64(PID as nat);
            codec::lemma_field_max_fits_i64(SEQ as nat);
        }
        Ok(Snowflake {
            ts: Dur::from_millis(tsm),
            tsm: tsm as i64,
            pid: pid as i64,
            seq: seq as i64,
        })
    }

    /// Law: packing in-range parts and unpacking the resulting integer gives
    /// the same parts back, and the packed integer keeps the sign bit clear.
    pub proof fn lemma_round_trip(tsm: i64, pid: i64, seq: i64)
        requires
            Self::layout_ok(),
            0 <= tsm <= Self::max_timestamp_spec(),
            0 <= pid <= Self::max_primary_id_spec(),
            0 <= seq <= Self::max_sequence_spec(),
        ensures
            ({
                let id = pack3(tsm as int, pid as int, seq as int, PID as nat, SEQ as nat);
                &&& Self::spec_unpack_ts(id) == tsm
                &&& Self::spec_unpack_pid(id) == pid
                &&& Self::spec_unpack_seq(id) == seq
                &&& 0 <= id <= i64::MAX
            }),
    {
        codec::lemma_pack3_extract(
            tsm as int,
            pid as int,
            seq as int,
            TS as nat,
            PID as nat,
            SEQ as nat,
        );
        codec::lemma_field_max_widens((TS + PID + SEQ) as nat, 63);
        codec::lemma_field_max_fits_i64((TS + PID + SEQ) as nat);
    }

    /// Law: among well-formed flakes with the same primary id, packed ids
    /// are ordered like their (timestamp, sequence) pairs, so no two such
    /// distinct pairs collide.
    pub proof fn lemma_id_ordered(a: Self, b: Self)
        requires
            Self::layout_ok(),
            a.wf(),
            b.wf(),
            a.pid == b.pid,
            a.tsm < b.tsm || (a.tsm == b.tsm && a.seq < b.seq),
        ensures
            a.spec_id() < b.spec_id(),
    {
        codec::lemma_pack3_monotone(
            a.tsm as int,
            a.pid as int,
            a.seq as int,
            b.tsm as int,
            b.pid as int,
            b.seq as int,
            PID as nat,
            SEQ as nat,
        );
    }
}

impl<const TS: u8, const PID: u8, const SEQ: u8> PartialEq for Snowflake<TS, PID, SEQ> {
    /// Two flakes are equal when their decoded fields agree; the retained
    /// creation instant is left out.
    fn eq(&self, rhs: &Self) -> (r: bool) {
        self.tsm == rhs.tsm && self.pid == rhs.pid && self.seq == rhs.seq
    }
}

impl<const TS: u8, const PID: u8, const SEQ: u8> vstd::std_specs::cmp::PartialEqSpecImpl
    for Snowflake<TS, PID, SEQ> {
    open spec fn obeys_eq_spec() -> bool {
        true
    }

    open spec fn eq_spec(&self, rhs: &Self) -> bool {
        self.tsm == rhs.tsm && self.pid == rhs.pid && self.seq == rhs.seq
    }
}

} // verus!
