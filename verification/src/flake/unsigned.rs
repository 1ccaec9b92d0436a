//! Single-segment snowflake over `u64`: with no sign bit to protect, the
//! field widths may use all 64 bits.

use vstd::prelude::*;
use vstd::arithmetic::power2::pow2;

use crate::codec;
use crate::codec::{field_max, pack3};
use crate::dur::Dur;
use crate::error::Error;
use crate::flake::segments::Segments;
use crate::traits;

verus! {

/// `u64` snowflake with one id segment.
///
/// The bit widths of the three fields are the const parameters `TS`, `PID`
/// and `SEQ`; they must each be positive and sum to at most 64.
#[derive(Eq, Clone, Copy, Debug)]
pub struct SingleIdFlake<const TS: u8, const PID: u8, const SEQ: u8> {
    pub ts: Dur,
    pub tsm: u64,
    pub pid: u64,
    pub seq: u64,
}

impl<const TS: u8, const PID: u8, const SEQ: u8> SingleIdFlake<TS, PID, SEQ> {
    /// The field widths the caller picked are usable: each field is at least
    /// one bit wide and together they fit the unsigned word.
    pub open spec fn layout_ok() -> bool {
        0 < TS && 0 < PID && 0 < SEQ && TS + PID + SEQ <= 64
    }

    /// Max value that a timestamp can be.
    pub open spec fn max_timestamp_spec() -> int {
        field_max(TS as nat)
    }

    /// Max value that a primary id can be.
    pub open spec fn max_primary_id_spec() -> int {
        field_max(PID as nat)
    }

    /// Max value a sequence can be.
    pub open spec fn max_sequence_spec() -> int {
        field_max(SEQ as nat)
    }

    /// Total bits to shift the timestamp.
    pub open spec fn timestamp_shift_spec() -> nat {
        (PID + SEQ) as nat
    }

    /// Total bits to shift the primary id.
    pub open spec fn primary_id_shift_spec() -> nat {
        SEQ as nat
    }

    /// All decoded fields lie in their field's range.
    pub open spec fn wf(self) -> bool {
        &&& self.tsm <= Self::max_timestamp_spec()
        &&& self.pid <= Self::max_primary_id_spec()
        &&& self.seq <= Self::max_sequence_spec()
        &&& self.ts.wf()
    }

    /// The packed integer this flake renders as.
    pub open spec fn spec_id(self) -> int {
        pack3(self.tsm as int, self.pid as int, self.seq as int, PID as nat, SEQ as nat)
    }

    /// The timestamp field a packed integer decodes to.
    pub open spec fn spec_unpack_ts(id: int) -> int {
        (id / pow2((PID + SEQ) as nat) as int) % pow2(TS as nat) as int
    }

    /// The primary id field a packed integer decodes to.
    pub open spec fn spec_unpack_pid(id: int) -> int {
        (id / pow2(SEQ as nat) as int) % pow2(PID as nat) as int
    }

    /// The sequence field a packed integer decodes to.
    pub open spec fn spec_unpack_seq(id: int) -> int {
        id % pow2(SEQ as nat) as int
    }

    /// Max value that a timestamp can be.
    pub fn max_timestamp() -> (r: u64)
        requires
            Self::layout_ok(),
        ensures
            r == Self::max_timestamp_spec(),
    {
        codec::max_u64(TS)
    }

    /// Max value that a primary id can be.
    pub fn max_primary_id() -> (r: u64)
        requires
            Self::layout_ok(),
        ensures
            r == Self::max_primary_id_spec(),
    {
        codec::max_u64(PID)
    }

    /// Max value a sequence can be.
    pub fn max_sequence() -> (r: u64)
        requires
            Self::layout_ok(),
        ensures
            r == Self::max_sequence_spec(),
    {
        codec::max_u64(SEQ)
    }

    /// Total bits to shift the timestamp.
    pub fn timestamp_shift() -> (r: u64)
        requires
            Self::layout_ok(),
        ensures
            r == Self::timestamp_shift_spec(),
    {
        PID as u64 + SEQ as u64
    }

    /// Total bits to shift the primary id.
    pub fn primary_id_shift() -> (r: u64)
        requires
            Self::layout_ok(),
        ensures
            r == Self::primary_id_shift_spec(),
    {
        SEQ as u64
    }

    /// Bit mask for the timestamp field.
    pub fn timestamp_mask() -> (r: u64)
        requires
            Self::layout_ok(),
        ensures
            r == Self::max_timestamp_spec() * pow2(Self::timestamp_shift_spec()),
    {
        let shift: u8 = PID + SEQ;
        proof {
            vstd::arithmetic::power2::lemma_pow2_pos(TS as nat);
            vstd::arithmetic::power2::lemma_pow2_pos(shift as nat);
            codec::lemma_field_max_widens(TS as nat, (64 - shift) as nat);
            codec::lemma_place_bound(Self::max_timestamp_spec(), TS as nat, shift as nat, 0);
        }
        codec::combine(codec::max_u64(TS), 0, shift)
    }

    /// Bit mask for the primary id field.
    pub fn primary_id_mask() -> (r: u64)
        requires
            Self::layout_ok(),
        ensures
            r == Self::max_primary_id_spec() * pow2(Self::primary_id_shift_spec()),
    {
        proof {
            vstd::arithmetic::power2::lemma_pow2_pos(PID as nat);
            vstd::arithmetic::power2::lemma_pow2_pos(SEQ as nat);
            codec::lemma_field_max_widens(PID as nat, (64 - SEQ) as nat);
            codec::lemma_place_bound(Self::max_primary_id_spec(), PID as nat, SEQ as nat, 0);
        }
        codec::combine(codec::max_u64(PID), 0, SEQ)
    }

    /// Bit mask for the sequence field.
    pub fn sequence_mask() -> (r: u64)
        requires
            Self::layout_ok(),
        ensures
            r == Self::max_sequence_spec(),
    {
        Self::max_sequence()
    }

    /// Returns the creation instant.
    ///
    /// If the flake was created outside of a snowcloud then this will have
    /// less precision.
    pub fn duration(&self) -> (r: &Dur)
        ensures
            r == self.ts,
    {
        &self.ts
    }

    /// Returns timestamp.
    pub fn timestamp(&self) -> (r: &u64)
        ensures
            r == self.tsm,
    {
        &self.tsm
    }

    /// Returns primary id reference.
    pub fn primary_id(&self) -> (r: &u64)
        ensures
            r == self.pid,
    {
        &self.pid
    }

    /// Returns sequence reference.
    pub fn sequence(&self) -> (r: &u64)
        ensures
            r == self.seq,
    {
        &self.seq
    }

    /// Generates a snowflake from the provided parts.
    ///
    /// Checks are performed on each part to ensure that they are valid for
    /// the given snowflake; an out-of-range primary id is reported as
    /// `IdSegInvalid`.
    pub fn from_parts(tsm: u64, pid: u64, seq: u64) -> (r: Result<Self, Error>)
        requires
            Self::layout_ok(),
        ensures
            tsm > Self::max_timestamp_spec() ==> r == Err::<Self, Error>(Error::EpochInvalid),
            (tsm <= Self::max_timestamp_spec() && pid > Self::max_primary_id_spec()) ==> r == Err::<
                Self,
                Error,
            >(Error::IdSegInvalid),
            (tsm <= Self::max_timestamp_spec() && pid <= Self::max_primary_id_spec() && seq
                > Self::max_sequence_spec()) ==> r == Err::<Self, Error>(Error::SequenceInvalid),
            (tsm <= Self::max_timestamp_spec() && pid <= Self::max_primary_id_spec() && seq
                <= Self::max_sequence_spec()) ==> (r matches Ok(f) && f.tsm == tsm && f.pid == pid
                && f.seq == seq && f.wf() && f.ts.spec_millis() == tsm),
    {
        if tsm > Self::max_timestamp() {
            return Err(Error::EpochInvalid);
        }
        if pid > Self::max_primary_id() {
            return Err(Error::IdSegInvalid);
        }
        if seq > Self::max_sequence() {
            return Err(Error::SequenceInvalid);
        }
        let ts = Dur::from_millis(tsm);
        Ok(SingleIdFlake { ts, tsm, pid, seq })
    }

    /// Splits the current snowflake into its individual parts.
    pub fn into_parts(self) -> (r: (u64, u64, u64))
        ensures
            r == (self.tsm, self.pid, self.seq),
    {
        (self.tsm, self.pid, self.seq)
    }

    /// Generates the unique id: the three fields packed into a `u64`.
    pub fn id(&self) -> (r: u64)
        requires
            Self::layout_ok(),
            self.wf(),
        ensures
            r == self.spec_id(),
    {
        proof {
            codec::lemma_field_max_widens(TS as nat, (64 - PID) as nat);
            codec::lemma_place_bound(self.tsm as int, TS as nat, PID as nat, self.pid as int);
            codec::lemma_field_max_widens((TS + PID) as nat, (64 - SEQ) as nat);
        }
        let inner = codec::combine(self.tsm, self.pid, PID);
        codec::combine(inner, self.seq, SEQ)
    }

    /// Rebuilds a snowflake from the given `u64`.
    ///
    /// Every integer decodes: the bit pattern is trusted, and each field is
    /// cut out by mask and shift.
    pub fn try_from(id: &u64) -> (r: Result<Self, Error>)
        requires
            Self::layout_ok(),
        ensures
            r matches Ok(f) && f.wf() && f.tsm == Self::spec_unpack_ts(*id as int) && f.pid
                == Self::spec_unpack_pid(*id as int) && f.seq == Self::spec_unpack_seq(*id as int)
                && f.ts.spec_millis() == f.tsm,
    {
        let u = *id;
        let seq = codec::take_low(u, SEQ);
        let above_seq = codec::shift_out(u, SEQ);
        let pid = codec::take_low(above_seq, PID);
        let above_pid = codec::shift_out(above_seq, PID);
        let tsm = codec::take_low(above_pid, TS);
        proof {
            vstd::arithmetic::div_mod::lemma_div_denominator(
                u as int,
                pow2(SEQ as nat) as int,
                pow2(PID as nat) as int,
            );
            vstd::arithmetic::power2::lemma_pow2_adds(SEQ as nat, PID as nat);
            vstd::arithmetic::power2::lemma_pow2_pos(SEQ as nat);
            vstd::arithmetic::power2::lemma_pow2_pos(PID as nat);
            assert((SEQ + PID) as nat == (PID + SEQ) as nat);
        }
        Ok(SingleIdFlake { ts: Dur::from_millis(tsm), tsm, pid, seq })
    }

    /// Law: packing in-range parts and unpacking the resulting integer gives
    /// the same parts back, and the packed integer fits the unsigned word.
    pub proof fn lemma_round_trip(tsm: u64, pid: u64, seq: u64)
        requires
            Self::layout_ok(),
            tsm <= Self::max_timestamp_spec(),
            pid <= Self::max_primary_id_spec(),
            seq <= Self::max_sequence_spec(),
        ensures
            ({
                let id = pack3(tsm as int, pid as int, seq as int, PID as nat, SEQ as nat);
                &&& Self::spec_unpack_ts(id) == tsm
                &&& Self::spec_unpack_pid(id) == pid
                &&& Self::spec_unpack_seq(id) == seq
                &&& 0 <= id <= u64::MAX
            }),
    {
        codec::lemma_pack3_extract(
            tsm as int,
            pid as int,
            seq as int,
            TS as nat,
            PID as nat,
            SEQ as nat,
        );
        codec::lemma_field_max_widens((TS + PID + SEQ) as nat, 64);
        vstd::arithmetic::power2::lemma2_to64();
    }


    /// Law: two flakes minted with the same segments at call keys that grow
    /// (first by millisecond, then by sequence) pack to strictly increasing
    /// integers, so ids minted by one generator never collide.
    pub proof fn lemma_minted_ids_distinct(ts1: Dur, seq1: u64, ts2: Dur, seq2: u64, ids: Segments<u64, 1>)
        requires
            Self::layout_ok(),
            <Self as traits::FromIdGenerator>::seg_ok(ids),
            ts1.wf(),
            ts2.wf(),
            ts1.spec_millis() <= <Self as traits::FromIdGenerator>::ts_field_max() as int,
            ts2.spec_millis() <= <Self as traits::FromIdGenerator>::ts_field_max() as int,
            1 <= seq1 <= <Self as traits::FromIdGenerator>::seq_field_max(),
            1 <= seq2 <= <Self as traits::FromIdGenerator>::seq_field_max(),
            ts1.spec_millis() < ts2.spec_millis() || (ts1.spec_millis() == ts2.spec_millis()
                && seq1 < seq2),
        ensures
            <Self as traits::FromIdGenerator>::made(ts1, seq1, ids).spec_id() < <Self as traits::FromIdGenerator>::made(ts2, seq2, ids).spec_id(),
    {
        codec::lemma_field_max_widens(TS as nat, 63);
        vstd::arithmetic::power2::lemma2_to64_rest();
        codec::lemma_field_max_fits_i64(SEQ as nat);
        vstd::arithmetic::power2::lemma_pow2_pos(TS as nat);
        vstd::arithmetic::power2::lemma_pow2_pos(SEQ as nat);
        assert(<Self as traits::FromIdGenerator>::ts_field_max() == Self::max_timestamp_spec());
        assert(<Self as traits::FromIdGenerator>::seq_field_max() == Self::max_sequence_spec());
        let a = <Self as traits::FromIdGenerator>::made(ts1, seq1, ids);
        let b = <Self as traits::FromIdGenerator>::made(ts2, seq2, ids);
        Self::lemma_id_ordered(a, b);
    }

    /// Law: among well-formed flakes with the same primary id, packed ids
    /// are ordered like their (timestamp, sequence) pairs, so no two such
    /// distinct pairs collide.
    pub proof fn lemma_id_ordered(a: Self, b: Self)
        requires
            Self::layout_ok(),
            a.wf(),
            b.wf(),
            a.pid == b.pid,
            a.tsm < b.tsm || (a.tsm == b.tsm && a.seq < b.seq),
        ensures
            a.spec_id() < b.spec_id(),
    {
        codec::lemma_pack3_monotone(
            a.tsm as int,
            a.pid as int,
            a.seq as int,
            b.tsm as int,
            b.pid as int,
            b.seq as int,
            PID as nat,
            SEQ as nat,
        );
    }
}

impl<const TS: u8, const PID: u8, const SEQ: u8> PartialEq for SingleIdFlake<TS, PID, SEQ> {
    /// Two flakes are equal when their decoded fields agree; the retained
    /// creation instant is left out.
    fn eq(&self, rhs: &Self) -> (r: bool) {
        self.tsm == rhs.tsm && self.pid == rhs.pid && self.seq == rhs.seq
    }
}

impl<const TS: u8, const PID: u8, const SEQ: u8> vstd::std_specs::cmp::PartialEqSpecImpl
    for SingleIdFlake<TS, PID, SEQ> {
    open spec fn obeys_eq_spec() -> bool {
        true
    }

    open spec fn eq_spec(&self, rhs: &Self) -> bool {
        self.tsm == rhs.tsm && self.pid == rhs.pid && self.seq == rhs.seq
    }
}

impl<const TS: u8, const PID: u8, const SEQ: u8> traits::Id for SingleIdFlake<TS, PID, SEQ> {
    type BaseType = u64;

    open spec fn id_ready(&self) -> bool {
        Self::layout_ok() && self.wf()
    }

    open spec fn base(&self) -> u64 {
        self.spec_id() as u64
    }

    fn id(&self) -> (r: u64) {
        SingleIdFlake::id(self)
    }
}

impl<const TS: u8, const PID: u8, const SEQ: u8> traits::FromIdGenerator
    for SingleIdFlake<TS, PID, SEQ> {
    type IdSegType = Segments<u64, 1>;

    open spec fn layout_valid() -> bool {
        Self::layout_ok()
    }

    /// The single segment must be positive and fit the primary id field.
    open spec fn seg_ok(v: Segments<u64, 1>) -> bool {
        0 < v.0@[0] <= Self::max_primary_id_spec()
    }

    open spec fn ts_field_max() -> u64 {
        Self::max_timestamp_spec() as u64
    }

    open spec fn seq_field_max() -> u64 {
        Self::max_sequence_spec() as u64
    }

    open spec fn made(ts: Dur, seq: u64, ids: Segments<u64, 1>) -> Self {
        SingleIdFlake { ts, tsm: ts.spec_millis() as u64, pid: ids.0@[0], seq }
    }


    proof fn seq_max_bound() {
        codec::lemma_field_max_widens(1, SEQ as nat);
        codec::lemma_field_max_widens(SEQ as nat, 63);
        vstd::arithmetic::power2::lemma2_to64();
        vstd::arithmetic::power2::lemma2_to64_rest();
    }

    fn ts_limit() -> (r: u64) {
        proof {
            codec::lemma_field_max_fits_i64(TS as nat);
        }
        codec::max_u64(TS)
    }

    fn seq_limit() -> (r: u64) {
        proof {
            codec::lemma_field_max_fits_i64(SEQ as nat);
        }
        codec::max_u64(SEQ)
    }

    fn valid_id(v: &Segments<u64, 1>) -> (r: bool) {
        let p = v.primary();
        *p > 0 && *p <= Self::max_primary_id()
    }

    fn valid_epoch(e: &u64) -> (r: bool) {
        *e <= codec::max_u64(TS)
    }

    fn max_sequence(seq: &u64) -> (r: bool) {
        *seq > codec::max_u64(SEQ)
    }

    fn max_duration(ts: &Dur) -> (r: bool) {
        ts.as_millis() > codec::max_u64(TS) as u128
    }

    fn create(ts: Dur, seq: u64, ids: &Segments<u64, 1>) -> (r: Self) {
        let tsm = ts.as_millis() as u64;
        SingleIdFlake { ts, tsm, pid: *ids.primary(), seq }
    }
}

} // verus!
