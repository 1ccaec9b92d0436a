//! Dual-segment snowflake over `i64`: a millisecond timestamp, a primary and
//! a secondary id, and a sequence counter packed most-significant-first.

use vstd::prelude::*;
use vstd::arithmetic::power2::pow2;

use crate::codec;
use crate::codec::{field_max, pack4, place};
use crate::dur::Dur;
use crate::error::Error;
use crate::flake::segments::Segments;
use crate::traits;

verus! {

/// `i64` snowflake with two id segments.
///
/// The bit widths of the four fields are the const parameters `TS`, `PID`,
/// `SID` and `SEQ`; they must each be positive and sum to at most 63 so the
/// packed id keeps its sign bit clear.
#[derive(Eq, Clone, Copy, Debug)]
pub struct DualIdFlake<const TS: u8, const PID: u8, const SID: u8, const SEQ: u8> {
    pub ts: Dur,
    pub tsm: i64,
    pub pid: i64,
    pub sid: i64,
    pub seq: i64,
}

impl<const TS: u8, const PID: u8, const SID: u8, const SEQ: u8> DualIdFlake<TS, PID, SID, SEQ> {
    /// The field widths the caller picked are usable: each field is at least
    /// one bit wide and together they leave the sign bit clear.
    pub open spec fn layout_ok() -> bool {
        0 < TS && 0 < PID && 0 < SID && 0 < SEQ && TS + PID + SID + SEQ <= 63
    }

    /// Max value that a timestamp can be.
    pub open spec fn max_timestamp_spec() -> int {
        field_max(TS as nat)
    }

    /// Max value that a primary id can be.
    pub open spec fn max_primary_id_spec() -> int {
        field_max(PID as nat)
    }

    /// Max value that a secondary id can be.
    pub open spec fn max_secondary_id_spec() -> int {
        field_max(SID as nat)
    }

    /// Max value a sequence can be.
    pub open spec fn max_sequence_spec() -> int {
        field_max(SEQ as nat)
    }

    /// Total bits to shift the timestamp.
    pub open spec fn timestamp_shift_spec() -> nat {
        (PID + SID + SEQ) as nat
    }

    /// Total bits to shift the primary id.
    pub open spec fn primary_id_shift_spec() -> nat {
        (SID + SEQ) as nat
    }

    /// Total bits to shift the secondary id.
    pub open spec fn secondary_id_shift_spec() -> nat {
        SEQ as nat
    }

    /// All decoded fields lie in their field's range.
    pub open spec fn wf(self) -> bool {
        &&& 0 <= self.tsm <= Self::max_timestamp_spec()
        &&& 0 <= self.pid <= Self::max_primary_id_spec()
        &&& 0 <= self.sid <= Self::max_secondary_id_spec()
        &&& 0 <= self.seq <= Self::max_sequence_spec()
        &&& self.ts.wf()
    }

    /// The packed integer this flake renders as.
    pub open spec fn spec_id(self) -> int {
        pack4(
            self.tsm as int,
            self.pid as int,
            self.sid as int,
            self.seq as int,
            PID as nat,
            SID as nat,
            SEQ as nat,
        )
    }

    /// The timestamp field a packed integer decodes to.
    pub open spec fn spec_unpack_ts(id: int) -> int {
        (id / pow2((PID + SID + SEQ) as nat) as int) % pow2(TS as nat) as int
    }

    /// The primary id field a packed integer decodes to.
    pub open spec fn spec_unpack_pid(id: int) -> int {
        (id / pow2((SID + SEQ) as nat) as int) % pow2(PID as nat) as int
    }

    /// The secondary id field a packed integer decodes to.
    pub open spec fn spec_unpack_sid(id: int) -> int {
        (id / pow2(SEQ as nat) as int) % pow2(SID as nat) as int
    }

    /// The sequence field a packed integer decodes to.
    pub open spec fn spec_unpack_seq(id: int) -> int {
        id % pow2(SEQ as nat) as int
    }

    /// Max value that a timestamp can be.
    pub fn max_timestamp() -> (r: i64)
        requires
            Self::layout_ok(),
        ensures
            r == Self::max_timestamp_spec(),
    {
        proof {
            codec::lemma_field_max_fits_i64(TS as nat);
        }
        codec::max_u64(TS) as i64
    }

    /// Max value that a primary id can be.
    pub fn max_primary_id() -> (r: i64)
        requires
            Self::layout_ok(),
        ensures
            r == Self::max_primary_id_spec(),
    {
        proof {
            codec::lemma_field_max_fits_i64(PID as nat);
        }
        codec::max_u64(PID) as i64
    }

    /// Max value that a secondary id can be.
    pub fn max_secondary_id() -> (r: i64)
        requires
            Self::layout_ok(),
        ensures
            r == Self::max_secondary_id_spec(),
    {
        proof {
            codec::lemma_field_max_fits_i64(SID as nat);
        }
        codec::max_u64(SID) as i64
    }

    /// Max value a sequence can be.
    pub fn max_sequence() -> (r: i64)
        requires
            Self::layout_ok(),
        ensures
            r == Self::max_sequence_spec(),
    {
        proof {
            codec::lemma_field_max_fits_i64(SEQ as nat);
        }
        codec::max_u64(SEQ) as i64
    }

    /// Total bits to shift the timestamp.
    pub fn timestamp_shift() -> (r: i64)
        requires
            Self::layout_ok(),
        ensures
            r == Self::timestamp_shift_spec(),
    {
        PID as i64 + SID as i64 + SEQ as i64
    }

    /// Total bits to shift the primary id.
    pub fn primary_id_shift() -> (r: i64)
        requires
            Self::layout_ok(),
        ensures
            r == Self::primary_id_shift_spec(),
    {
        SID as i64 + SEQ as i64
    }

    /// Total bits to shift the secondary id.
    pub fn secondary_id_shift() -> (r: i64)
        requires
            Self::layout_ok(),
        ensures
            r == Self::secondary_id_shift_spec(),
    {
        SEQ as i64
    }

    /// Bit mask for the timestamp field.
    pub fn timestamp_mask() -> (r: i64)
        requires
            Self::layout_ok(),
        ensures
            r == Self::max_timestamp_spec() * pow2(Self::timestamp_shift_spec()),
    {
        let shift: u8 = PID + SID + SEQ;
        proof {
            vstd::arithmetic::power2::lemma_pow2_pos(TS as nat);
            vstd::arithmetic::power2::lemma_pow2_pos(shift as nat);
            codec::lemma_field_max_widens(TS as nat, (64 - shift) as nat);
            codec::lemma_place_bound(Self::max_timestamp_spec(), TS as nat, shift as nat, 0);
            codec::lemma_field_max_fits_i64((TS + shift) as nat);
        }
        codec::combine(codec::max_u64(TS), 0, shift) as i64
    }

    /// Bit mask for the primary id field.
    pub fn primary_id_mask() -> (r: i64)
        requires
            Self::layout_ok(),
        ensures
            r == Self::max_primary_id_spec() * pow2(Self::primary_id_shift_spec()),
    {
        let shift: u8 = SID + SEQ;
        proof {
            vstd::arithmetic::power2::lemma_pow2_pos(PID as nat);
            vstd::arithmetic::power2::lemma_pow2_pos(shift as nat);
            codec::lemma_field_max_widens(PID as nat, (64 - shift) as nat);
            codec::lemma_place_bound(Self::max_primary_id_spec(), PID as nat, shift as nat, 0);
            codec::lemma_field_max_fits_i64((PID + shift) as nat);
        }
        codec::combine(codec::max_u64(PID), 0, shift) as i64
    }

    /// Bit mask for the secondary id field.
    pub fn secondary_id_mask() -> (r: i64)
        requires
            Self::layout_ok(),
        ensures
            r == Self::max_secondary_id_spec() * pow2(Self::secondary_id_shift_spec()),
    {
        proof {
            vstd::arithmetic::power2::lemma_pow2_pos(SID as nat);
            vstd::arithmetic::power2::lemma_pow2_pos(SEQ as nat);
            codec::lemma_field_max_widens(SID as nat, (64 - SEQ) as nat);
            codec::lemma_place_bound(Self::max_secondary_id_spec(), SID as nat, SEQ as nat, 0);
            codec::lemma_field_max_fits_i64((SID + SEQ) as nat);
        }
        codec::combine(codec::max_u64(SID), 0, SEQ) as i64
    }

    /// Bit mask for the sequence field.
    pub fn sequence_mask() -> (r: i64)
        requires
            Self::layout_ok(),
        ensures
            r == Self::max_sequence_spec(),
    {
        Self::max_sequence()
    }

    /// Returns the creation instant.
    ///
    /// If the flake was created outside of a snowcloud then this will have
    /// less precision.
    pub fn duration(&self) -> (r: &Dur)
        ensures
            r == self.ts,
    {
        &self.ts
    }

    /// Returns timestamp.
    pub fn timestamp(&self) -> (r: &i64)
        ensures
            r == self.tsm,
    {
        &self.tsm
    }

    /// Returns primary id reference.
    pub fn primary_id(&self) -> (r: &i64)
        ensures
            r == self.pid,
    {
        &self.pid
    }

    /// Returns secondary id reference.
    pub fn secondary_id(&self) -> (r: &i64)
        ensures
            r == self.sid,
    {
        &self.sid
    }

    /// Returns sequence reference.
    pub fn sequence(&self) -> (r: &i64)
        ensures
            r == self.seq,
    {
        &self.seq
    }

    /// Generates a snowflake from the provided parts.
    ///
    /// Checks are performed on each part to ensure that they are valid for
    /// the given snowflake; an out-of-range primary or secondary id is
    /// reported as `IdSegInvalid`.
    pub fn from_parts(tsm: i64, pid: i64, sid: i64, seq: i64) -> (r: Result<Self, Error>)
        requires
            Self::layout_ok(),
        ensures
            (tsm < 0 || tsm > Self::max_timestamp_spec()) ==> r == Err::<Self, Error>(
                Error::EpochInvalid,
            ),
            (0 <= tsm <= Self::max_timestamp_spec() && (pid < 0 || pid
                > Self::max_primary_id_spec())) ==> r == Err::<Self, Error>(Error::IdSegInvalid),
            (0 <= tsm <= Self::max_timestamp_spec() && 0 <= pid <= Self::max_primary_id_spec()
                && (sid < 0 || sid > Self::max_secondary_id_spec())) ==> r == Err::<Self, Error>(
                Error::IdSegInvalid,
            ),
            (0 <= tsm <= Self::max_timestamp_spec() && 0 <= pid <= Self::max_primary_id_spec()
                && 0 <= sid <= Self::max_secondary_id_spec() && (seq < 0 || seq
                > Self::max_sequence_spec())) ==> r == Err::<Self, Error>(Error::SequenceInvalid),
            (0 <= tsm <= Self::max_timestamp_spec() && 0 <= pid <= Self::max_primary_id_spec()
                && 0 <= sid <= Self::max_secondary_id_spec() && 0 <= seq
                <= Self::max_sequence_spec()) ==> (r matches Ok(f) && f.tsm == tsm && f.pid == pid
                && f.sid == sid && f.seq == seq && f.wf() && f.ts.spec_millis() == tsm),
    {
        if tsm < 0 || tsm > Self::max_timestamp() {
            return Err(Error::EpochInvalid);
        }
        if pid < 0 || pid > Self::max_primary_id() {
            return Err(Error::IdSegInvalid);
        }
        if sid < 0 || sid > Self::max_secondary_id() {
            return Err(Error::IdSegInvalid);
        }
        if seq < 0 || seq > Self::max_sequence() {
            return Err(Error::SequenceInvalid);
        }
        let ts = Dur::from_millis(tsm as u64);
        Ok(DualIdFlake { ts, tsm, pid, sid, seq })
    }

    /// Splits the current snowflake into its individual parts.
    pub fn into_parts(self) -> (r: (i64, i64, i64, i64))
        ensures
            r == (self.tsm, self.pid, self.sid, self.seq),
    {
        (self.tsm, self.pid, self.sid, self.seq)
    }

    /// Generates the unique id: the four fields packed into a non-negative
    /// `i64`.
    pub fn id(&self) -> (r: i64)
        requires
            Self::layout_ok(),
            self.wf(),
        ensures
            r == self.spec_id(),
            0 <= r,
    {
        proof {
            codec::lemma_field_max_widens(TS as nat, (64 - PID) as nat);
            codec::lemma_place_bound(self.tsm as int, TS as nat, PID as nat, self.pid as int);
            codec::lemma_field_max_widens((TS + PID) as nat, (64 - SID) as nat);
            codec::lemma_place_bound(
                place(self.tsm as int, PID as nat, self.pid as int),
                (TS + PID) as nat,
                SID as nat,
                self.sid as int,
            );
            codec::lemma_field_max_widens((TS + PID + SID) as nat, (64 - SEQ) as nat);
            codec::lemma_place_bound(
                place(
                    place(self.tsm as int, PID as nat, self.pid as int),
                    SID as nat,
                    self.sid as int,
                ),
                (TS + PID + SID) as nat,
                SEQ as nat,
                self.seq as int,
            );
            codec::lemma_field_max_fits_i64((TS + PID + SID + SEQ) as nat);
        }
        let inner = codec::combine(self.tsm as u64, self.pid as u64, PID);
        let mid = codec::combine(inner, self.sid as u64, SID);
        codec::combine(mid, self.seq as u64, SEQ) as i64
    }

    /// Attempts to rebuild a snowflake from the given `i64`.
    ///
    /// The integer must be non-negative; the bit pattern is otherwise
    /// trusted, and each field is cut out by mask and shift.
    pub fn try_from(id: &i64) -> (r: Result<Self, Error>)
        requires
            Self::layout_ok(),
        ensures
            *id < 0 ==> r == Err::<Self, Error>(Error::InvalidId),
            *id >= 0 ==> (r matches Ok(f) && f.wf() && f.tsm == Self::spec_unpack_ts(*id as int)
                && f.pid == Self::spec_unpack_pid(*id as int) && f.sid == Self::spec_unpack_sid(
                *id as int,
            ) && f.seq == Self::spec_unpack_seq(*id as int) && f.ts.spec_millis() == f.tsm),
    {
        if *id < 0 {
            return Err(Error::InvalidId);
        }
        let u = *id as u64;
        let seq = codec::take_low(u, SEQ);
        let above_seq = codec::shift_out(u, SEQ);
        let sid = codec::take_low(above_seq, SID);
        let above_sid = codec::shift_out(above_seq, SID);
        let pid = codec::take_low(above_sid, PID);
        let above_pid = codec::shift_out(above_sid, PID);
        let tsm = codec::take_low(above_pid, TS);
        proof {
            vstd::arithmetic::power2::lemma_pow2_pos(SEQ as nat);
            vstd::arithmetic::power2::lemma_pow2_pos(SID as nat);
            vstd::arithmetic::power2::lemma_pow2_pos(PID as nat);
            vstd::arithmetic::div_mod::lemma_div_denominator(
                u as int,
                pow2(SEQ as nat) as int,
                pow2(SID as nat) as int,
            );
            vstd::arithmetic::power2::lemma_pow2_adds(SEQ as nat, SID as nat);
            assert((SEQ + SID) as nat == (SID + SEQ) as nat);
            vstd::arithmetic::power2::lemma_pow2_pos((SID + SEQ) as nat);
            vstd::arithmetic::div_mod::lemma_div_denominator(
                u as int,
                pow2((SID + SEQ) as nat) as int,
                pow2(PID as nat) as int,
            );
            vstd::arithmetic::power2::lemma_pow2_adds((SID + SEQ) as nat, PID as nat);
            assert((SID + SEQ + PID) as nat == (PID + SID + SEQ) as nat);
            codec::lemma_field_max_fits_i64(TS as nat);
            codec::lemma_field_max_fits_i64(PID as nat);
            codec::lemma_field_max_fits_i64(SID as nat);
            codec::lemma_field_max_fits_i64(SEQ as nat);
        }
        Ok(DualIdFlake {
            ts: Dur::from_millis(tsm),
            tsm: tsm as i64,
            pid: pid as i64,
            sid: sid as i64,
            seq: seq as i64,
        })
    }

    /// Law: packing in-range parts and unpacking the resulting integer gives
    /// the same parts back, and the packed integer keeps the sign bit clear.
    pub proof fn lemma_round_trip(tsm: i64, pid: i64, sid: i64, seq: i64)
        requires
            Self::layout_ok(),
            0 <= tsm <= Self::max_timestamp_spec(),
            0 <= pid <= Self::max_primary_id_spec(),
            0 <= sid <= Self::max_secondary_id_spec(),
            0 <= seq <= Self::max_sequence_spec(),
        ensures
            ({
                let id = pack4(
                    tsm as int,
                    pid as int,
                    sid as int,
                    seq as int,
                    PID as nat,
                    SID as nat,
                    SEQ as nat,
                );
                &&& Self::spec_unpack_ts(id) == tsm
                &&& Self::spec_unpack_pid(id) == pid
                &&& Self::spec_unpack_sid(id) == sid
                &&& Self::spec_unpack_seq(id) == seq
                &&& 0 <= id <= i64::MAX
            }),
    {
        codec::lemma_pack4_extract(
            tsm as int,
            pid as int,
            sid as int,
            seq as int,
            TS as nat,
            PID as nat,
            SID as nat,
            SEQ as nat,
        );
        codec::lemma_field_max_widens((TS + PID + SID + SEQ) as nat, 63);
        codec::lemma_field_max_fits_i64((TS + PID + SID + SEQ) as nat);
    }


    /// Law: two flakes minted with the same segments at call keys that grow
    /// (first by millisecond, then by sequence) pack to strictly increasing
    /// integers, so ids minted by one generator never collide.
    pub proof fn lemma_minted_ids_distinct(ts1: Dur, seq1: u64, ts2: Dur, seq2: u64, ids: Segments<i64, 2>)
        requires
            Self::layout_ok(),
            <Self as traits::FromIdGenerator>::seg_ok(ids),
            ts1.wf(),
            ts2.wf(),
            ts1.spec_millis() <= <Self as traits::FromIdGenerator>::ts_field_max() as int,
            ts2.spec_millis() <= <Self as traits::FromIdGenerator>::ts_field_max() as int,
            1 <= seq1 <= <Self as traits::FromIdGenerator>::seq_field_max(),
            1 <= seq2 <= <Self as traits::FromIdGenerator>::seq_field_max(),
            ts1.spec_millis() < ts2.spec_millis() || (ts1.spec_millis() == ts2.spec_millis()
                && seq1 < seq2),
        ensures
            <Self as traits::FromIdGenerator>::made(ts1, seq1, ids).spec_id() < <Self as traits::FromIdGenerator>::made(ts2, seq2, ids).spec_id(),
    {
        codec::lemma_field_max_fits_i64(TS as nat);
        codec::lemma_field_max_fits_i64(SEQ as nat);
        vstd::arithmetic::power2::lemma_pow2_pos(TS as nat);
        vstd::arithmetic::power2::lemma_pow2_pos(SEQ as nat);
        assert(<Self as traits::FromIdGenerator>::ts_field_max() == Self::max_timestamp_spec());
        assert(<Self as traits::FromIdGenerator>::seq_field_max() == Self::max_sequence_spec());
        let a = <Self as traits::FromIdGenerator>::made(ts1, seq1, ids);
        let b = <Self as traits::FromIdGenerator>::made(ts2, seq2, ids);
        Self::lemma_id_ordered(a, b);
    }

    /// Law: among well-formed flakes with the same segments, packed ids are
    /// ordered like their (timestamp, sequence) pairs, so no two such
    /// distinct pairs collide.
    pub proof fn lemma_id_ordered(a: Self, b: Self)
        requires
            Self::layout_ok(),
            a.wf(),
            b.wf(),
            a.pid == b.pid,
            a.sid == b.sid,
            a.tsm < b.tsm || (a.tsm == b.tsm && a.seq < b.seq),
        ensures
            a.spec_id() < b.spec_id(),
    {
        codec::lemma_pack4_monotone(
            a.tsm as int,
            a.pid as int,
            a.sid as int,
            a.seq as int,
            b.tsm as int,
            b.pid as int,
            b.sid as int,
            b.seq as int,
            PID as nat,
            SID as nat,
            SEQ as nat,
        );
    }
}

impl<const TS: u8, const PID: u8, const SID: u8, const SEQ: u8> PartialEq
    for DualIdFlake<TS, PID, SID, SEQ> {
    /// Two flakes are equal when their decoded fields agree; the retained
    /// creation instant is left out.
    fn eq(&self, rhs: &Self) -> (r: bool) {
        self.tsm == rhs.tsm && self.pid == rhs.pid && self.sid == rhs.sid && self.seq == rhs.seq
    }
}

impl<const TS: u8, const PID: u8, const SID: u8, const SEQ: u8> vstd::std_specs::cmp::PartialEqSpecImpl for DualIdFlake<TS, PID, SID, SEQ> {
    open spec fn obeys_eq_spec() -> bool {
        true
    }

    open spec fn eq_spec(&self, rhs: &Self) -> bool {
        self.tsm == rhs.tsm && self.pid == rhs.pid && self.sid == rhs.sid && self.seq == rhs.seq
    }
}

impl<const TS: u8, const PID: u8, const SID: u8, const SEQ: u8> traits::Id
    for DualIdFlake<TS, PID, SID, SEQ> {
    type BaseType = i64;

    open spec fn id_ready(&self) -> bool {
        Self::layout_ok() && self.wf()
    }

    open spec fn base(&self) -> i64 {
        self.spec_id() as i64
    }

    fn id(&self) -> (r: i64) {
        DualIdFlake::id(self)
    }
}

impl<const TS: u8, const PID: u8, const SID: u8, const SEQ: u8> traits::FromIdGenerator
    for DualIdFlake<TS, PID, SID, SEQ> {
    type IdSegType = Segments<i64, 2>;

    open spec fn layout_valid() -> bool {
        Self::layout_ok()
    }

    /// Both segments must be positive and fit their fields.
    open spec fn seg_ok(v: Segments<i64, 2>) -> bool {
        0 < v.0@[0] <= Self::max_primary_id_spec() && 0 < v.0@[1] <= Self::max_secondary_id_spec()
    }

    open spec fn ts_field_max() -> u64 {
        Self::max_timestamp_spec() as u64
    }

    open spec fn seq_field_max() -> u64 {
        Self::max_sequence_spec() as u64
    }

    open spec fn made(ts: Dur, seq: u64, ids: Segments<i64, 2>) -> Self {
        DualIdFlake {
            ts,
            tsm: ts.spec_millis() as i64,
            pid: ids.0@[0],
            sid: ids.0@[1],
            seq: seq as i64,
        }
    }


    proof fn seq_max_bound() {
        codec::lemma_field_max_widens(1, SEQ as nat);
        codec::lemma_field_max_widens(SEQ as nat, 63);
        vstd::arithmetic::power2::lemma2_to64();
        vstd::arithmetic::power2::lemma2_to64_rest();
    }

    fn ts_limit() -> (r: u64) {
        proof {
            codec::lemma_field_max_fits_i64(TS as nat);
        }
        codec::max_u64(TS)
    }

    fn seq_limit() -> (r: u64) {
        proof {
            codec::lemma_field_max_fits_i64(SEQ as nat);
        }
        codec::max_u64(SEQ)
    }

    fn valid_id(v: &Segments<i64, 2>) -> (r: bool) {
        let p = v.primary();
        let s = v.secondary();
        *p > 0 && *p <= Self::max_primary_id() && *s > 0 && *s <= Self::max_secondary_id()
    }

    fn valid_epoch(e: &u64) -> (r: bool) {
        proof {
            codec::lemma_field_max_fits_i64(TS as nat);
            vstd::arithmetic::power2::lemma_pow2_pos(TS as nat);
        }
        *e <= codec::max_u64(TS)
    }

    fn max_sequence(seq: &u64) -> (r: bool) {
        proof {
            codec::lemma_field_max_fits_i64(SEQ as nat);
            vstd::arithmetic::power2::lemma_pow2_pos(SEQ as nat);
        }
        *seq > codec::max_u64(SEQ)
    }

    fn max_duration(ts: &Dur) -> (r: bool) {
        proof {
            codec::lemma_field_max_fits_i64(TS as nat);
            vstd::arithmetic::power2::lemma_pow2_pos(TS as nat);
        }
        ts.as_millis() > codec::max_u64(TS) as u128
    }

    fn create(ts: Dur, seq: u64, ids: &Segments<i64, 2>) -> (r: Self) {
        proof {
            codec::lemma_field_max_fits_i64(TS as nat);
            codec::lemma_field_max_fits_i64(SEQ as nat);
            vstd::arithmetic::power2::lemma_pow2_pos(TS as nat);
        }
        let tsm = ts.as_millis() as i64;
        DualIdFlake { ts, tsm, pid: *ids.primary(), sid: *ids.secondary(), seq: seq as i64 }
    }
}

} // verus!
