//! Single-segment snowflake over `i64`: a millisecond timestamp, one primary
//! id and a sequence counter packed most-significant-first, with the
//! creation instant retained only for freshly generated flakes.

use vstd::prelude::*;
use vstd::arithmetic::power2::pow2;

use crate::codec;
use crate::codec::{field_max, pack3, place};
use crate::dur::Dur;
use crate::error::Error;
use crate::flake::segments::Segments;
use crate::traits;

verus! {

/// `i64` snowflake with one id segment.
///
/// The bit widths of the three fields are the const parameters `TS`, `PID`
/// and `SEQ`; they must each be positive and sum to at most 63 so the packed
/// id keeps its sign bit clear. A freshly generated flake retains the full
/// creation instant in `dur`; one rebuilt from an integer or from parts
/// carries none.
#[derive(Eq, Clone, Copy, Debug)]
pub struct SingleIdFlake<const TS: u8, const PID: u8, const SEQ: u8> {
    pub dur: Option<Dur>,
    pub tsm: i64,
    pub pid: i64,
    pub seq: i64,
}

impl<const TS: u8, const PID: u8, const SEQ: u8> SingleIdFlake<TS, PID, SEQ> {
    /// The field widths the caller picked are usable: each field is at least
    /// one bit wide and together they leave the sign bit clear.
    pub open spec fn layout_ok() -> bool {
        0 < TS && 0 < PID && 0 < SEQ && TS + PID + SEQ <= 63
    }

    /// Max value that a timestamp can be.
    pub open spec fn max_timestamp_spec() -> int {
        field_max(TS as nat)
    }

    /// Max value that a primary id can be.
    pub open spec fn max_primary_id_spec() -> int {
        field_max(PID as nat)
    }

    /// Max value a sequence can be.
    pub open spec fn max_sequence_spec() -> int {
        field_max(SEQ as nat)
    }

    /// Total bits to shift the timestamp.
    pub open spec fn timestamp_shift_spec() -> nat {
        (PID + SEQ) as nat
    }

    /// Total bits to shift the primary id.
    pub open spec fn primary_id_shift_spec() -> nat {
        SEQ as nat
    }

    /// All decoded fields lie in their field's range.
    pub open spec fn wf(self) -> bool {
        &&& 0 <= self.tsm <= Self::max_timestamp_spec()
        &&& 0 <= self.pid <= Self::max_primary_id_spec()
        &&& 0 <= self.seq <= Self::max_sequence_spec()
    }

    /// The packed integer this flake renders as.
    pub open spec fn spec_id(self) -> int {
        pack3(self.tsm as int, self.pid as int, self.seq as int, PID as nat, SEQ as nat)
    }

    /// The timestamp field a packed integer decodes to.
    pub open spec fn spec_unpack_ts(id: int) -> int {
        (id / pow2((PID + SEQ) as nat) as int) % pow2(TS as nat) as int
    }

    /// The primary id field a packed integer decodes to.
    pub open spec fn spec_unpack_pid(id: int) -> int {
        (id / pow2(SEQ as nat) as int) % pow2(PID as nat) as int
    }

    /// The sequence field a packed integer decodes to.
    pub open spec fn spec_unpack_seq(id: int) -> int {
        id % pow2(SEQ as nat) as int
    }

    /// Max value that a timestamp can be.
    pub fn max_timestamp() -> (r: i64)
        requires
            Self::layout_ok(),
        ensures
            r == Self::max_timestamp_spec(),
    {
        proof {
            codec::lemma_field_max_fits_i64(TS as nat);
        }
        codec::max_u64(TS) as i64
    }

    /// Max value that a primary id can be.
    pub fn max_primary_id() -> (r: i64)
        requires
            Self::layout_ok(),
        ensures
            r == Self::max_primary_id_spec(),
    {
        proof {
            codec::lemma_field_max_fits_i64(PID as nat);
        }
        codec::max_u64(PID) as i64
    }

    /// Max value a sequence can be.
    pub fn max_sequence() -> (r: i64)
        requires
            Self::layout_ok(),
        ensures
            r == Self::max_sequence_spec(),
    {
        proof {
            codec::lemma_field_max_fits_i64(SEQ as nat);
        }
        codec::max_u64(SEQ) as i64
    }

    /// Total bits to shift the timestamp.
    pub fn timestamp_shift() -> (r: i64)
        requires
            Self::layout_ok(),
        ensures
            r == Self::timestamp_shift_spec(),
    {
        PID as i64 + SEQ as i64
    }

    /// Total bits to shift the primary id.
    pub fn primary_id_shift() -> (r: i64)
        requires
            Self::layout_ok(),
        ensures
            r == Self::primary_id_shift_spec(),
    {
        SEQ as i64
    }

    /// Bit mask for the timestamp field.
    pub fn timestamp_mask() -> (r: i64)
        requires
            Self::layout_ok(),
        ensures
            r == Self::max_timestamp_spec() * pow2(Self::timestamp_shift_spec()),
    {
        let shift: u8 = PID + SEQ;
        proof {
            vstd::arithmetic::power2::lemma_pow2_pos(TS as nat);
            vstd::arithmetic::power2::lemma_pow2_pos(shift as nat);
            codec::lemma_field_max_widens(TS as nat, (64 - shift) as nat);
            codec::lemma_place_bound(Self::max_timestamp_spec(), TS as nat, shift as nat, 0);
            codec::lemma_field_max_fits_i64((TS + shift) as nat);
        }
        codec::combine(codec::max_u64(TS), 0, shift) as i64
    }

    /// Bit mask for the primary id field.
    pub fn primary_id_mask() -> (r: i64)
        requires
            Self::layout_ok(),
        ensures
            r == Self::max_primary_id_spec() * pow2(Self::primary_id_shift_spec()),
    {
        proof {
            vstd::arithmetic::power2::lemma_pow2_pos(PID as nat);
            vstd::arithmetic::power2::lemma_pow2_pos(SEQ as nat);
            codec::lemma_field_max_widens(PID as nat, (64 - SEQ) as nat);
            codec::lemma_place_bound(Self::max_primary_id_spec(), PID as nat, SEQ as nat, 0);
            codec::lemma_field_max_fits_i64((PID + SEQ) as nat);
        }
        codec::combine(codec::max_u64(PID), 0, SEQ) as i64
    }

    /// Bit mask for the sequence field.
    pub fn sequence_mask() -> (r: i64)
        requires
            Self::layout_ok(),
        ensures
            r == Self::max_sequence_spec(),
    {
        Self::max_sequence()
    }

    /// Returns the creation instant, present only on freshly generated
    /// flakes.
    pub fn duration(&self) -> (r: Option<&Dur>)
        ensures
            match r {
                Some(d) => self.dur == Some(*d),
                None => self.dur is None,
            },
    {
        self.dur.as_ref()
    }

    /// Returns timestamp.
    pub fn timestamp(&self) -> (r: &i64)
        ensures
            r == self.tsm,
    {
        &self.tsm
    }

    /// Returns primary id reference.
    pub fn primary_id(&self) -> (r: &i64)
        ensures
            r == self.pid,
    {
        &self.pid
    }

    /// Returns sequence reference.
    pub fn sequence(&self) -> (r: &i64)
        ensures
            r == self.seq,
    {
        &self.seq
    }

    /// Generates a snowflake from the provided parts.
    ///
    /// Checks are performed on each part to ensure that they are valid for
    /// the given snowflake; an out-of-range primary id is reported as
    /// `IdSegInvalid`.
    pub fn from_parts(tsm: i64, pid: i64, seq: i64) -> (r: Result<Self, Error>)
        requires
            Self::layout_ok(),
        ensures
            (tsm < 0 || tsm > Self::max_timestamp_spec()) ==> r == Err::<Self, Error>(
                Error::EpochInvalid,
            ),
            (0 <= tsm <= Self::max_timestamp_spec() && (pid < 0 || pid
                > Self::max_primary_id_spec())) ==> r == Err::<Self, Error>(Error::IdSegInvalid),
            (0 <= tsm <= Self::max_timestamp_spec() && 0 <= pid <= Self::max_primary_id_spec()
                && (seq < 0 || seq > Self::max_sequence_spec())) ==> r == Err::<Self, Error>(
                Error::SequenceInvalid,
            ),
            (0 <= tsm <= Self::max_timestamp_spec() && 0 <= pid <= Self::max_primary_id_spec()
                && 0 <= seq <= Self::max_sequence_spec()) ==> (r matches Ok(f) && f.tsm == tsm
                && f.pid == pid && f.seq == seq && f.dur is None && f.wf()),
    {
        if tsm < 0 || tsm > Self::max_timestamp() {
            return Err(Error::EpochInvalid);
        }
        if pid < 0 || pid > Self::max_primary_id() {
            return Err(Error::IdSegInvalid);
        }
        if seq < 0 || seq > Self::max_sequence() {
            return Err(Error::SequenceInvalid);
        }
        Ok(SingleIdFlake { dur: None, tsm, pid, seq })
    }

    /// Splits the current snowflake into its individual parts.
    pub fn into_parts(self) -> (r: (i64, i64, i64))
        ensures
            r == (self.tsm, self.pid, self.seq),
    {
        (self.tsm, self.pid, self.seq)
    }

    /// Generates the unique id: the three fields packed into a non-negative
    /// `i64`.
    pub fn id(&self) -> (r: i64)
        requires
            Self::layout_ok(),
            self.wf(),
        ensures
            r == self.spec_id(),
            0 <= r,
    {
        proof {
            codec::lemma_field_max_widens(TS as nat, (64 - PID) as nat);
            codec::lemma_place_bound(self.tsm as int, TS as nat, PID as nat, self.pid as int);
            codec::lemma_field_max_widens((TS + PID) as nat, (64 - SEQ) as nat);
            codec::lemma_place_bound(
                place(self.tsm as int, PID as nat, self.pid as int),
                (TS + PID) as nat,
                SEQ as nat,
                self.seq as int,
            );
            codec::lemma_field_max_fits_i64((TS + PID + SEQ) as nat);
        }
        let inner = codec::combine(self.tsm as u64, self.pid as u64, PID);
        codec::combine(inner, self.seq as u64, SEQ) as i64
    }

    /// Attempts to rebuild a snowflake from the given `i64`.
    ///
    /// The integer must be non-negative; the bit pattern is otherwise
    /// trusted, and each field is cut out by mask and shift.
    pub fn try_from(id: &i64) -> (r: Result<Self, Error>)
        requires
            Self::layout_ok(),
        ensures
            *id < 0 ==> r == Err::<Self, Error>(Error::InvalidId),
            *id >= 0 ==> (r matches Ok(f) && f.wf() && f.tsm == Self::spec_unpack_ts(*id as int)
                && f.pid == Self::spec_unpack_pid(*id as int) && f.seq == Self::spec_unpack_seq(
                *id as int,
            ) && f.dur is None),
    {
        if *id < 0 {
            return Err(Error::InvalidId);
        }
        let u = *id as u64;
        let seq = codec::take_low(u, SEQ);
        let above_seq = codec::shift_out(u, SEQ);
        let pid = codec::take_low(above_seq, PID);
        let above_pid = codec::shift_out(above_seq, PID);
        let tsm = codec::take_low(above_pid, TS);
        proof {
            vstd::arithmetic::div_mod::lemma_div_denominator(
                u as int,
                pow2(SEQ as nat) as int,
                pow2(PID as nat) as int,
            );
            vstd::arithmetic::power2::lemma_pow2_adds(SEQ as nat, PID as nat);
            vstd::arithmetic::power2::lemma_pow2_pos(SEQ as nat);
            vstd::arithmetic::power2::lemma_pow2_pos(PID as nat);
            assert((SEQ + PID) as nat == (PID + SEQ) as nat);
            codec::lemma_field_max_fits_i64(TS as nat);
            codec::lemma_field_max_fits_i64(PID as nat);
            codec::lemma_field_max_fits_i64(SEQ as nat);
        }
        Ok(SingleIdFlake { dur: None, tsm: tsm as i64, pid: pid as i64, seq: seq as i64 })
    }

    /// Starts a builder that mints flakes carrying the given primary id.
    pub fn builder(ids: &Segments<i64, 1>) -> (r: Builder<TS, PID, SEQ>)
        ensures
            r.dur == (Dur { secs: 0, nanos: 0 }),
            r.ts == 0,
            r.seq == 0,
            r.pid == ids.0@[0],
    {
        Builder { dur: Dur { secs: 0, nanos: 0 }, ts: 0, seq: 0, pid: *ids.primary() }
    }

    /// Law: packing in-range parts and unpacking the resulting integer gives
    /// the same parts back, and the packed integer keeps the sign bit clear.
    pub proof fn lemma_round_trip(tsm: i64, pid: i64, seq: i64)
        requires
            Self::layout_ok(),
            0 <= tsm <= Self::max_timestamp_spec(),
            0 <= pid <= Self::max_primary_id_spec(),
            0 <= seq <= Self::max_sequence_spec(),
        ensures
            ({
                let id = pack3(tsm as int, pid as int, seq as int, PID as nat, SEQ as nat);
                &&& Self::spec_unpack_ts(id) == tsm
                &&& Self::spec_unpack_pid(id) == pid
                &&& Self::spec_unpack_seq(id) == seq
                &&& 0 <= id <= i64::MAX
            }),
    {
        codec::lemma_pack3_extract(
            tsm as int,
            pid as int,
            seq as int,
            TS as nat,
            PID as nat,
            SEQ as nat,
        );
        codec::lemma_field_max_widens((TS + PID + SEQ) as nat, 63);
        codec::lemma_field_max_fits_i64((TS + PID + SEQ) as nat);
    }


    /// Law: two flakes minted with the same segments at call keys that grow
    /// (first by millisecond, then by sequence) pack to strictly increasing
    /// integers, so ids minted by one generator never collide.
    pub proof fn lemma_minted_ids_distinct(ts1: Dur, seq1: u64, ts2: Dur, seq2: u64, ids: Segments<i64, 1>)
        requires
            Self::layout_ok(),
            <Self as traits::FromIdGenerator>::seg_ok(ids),
            ts1.wf(),
            ts2.wf(),
            ts1.spec_millis() <= <Self as traits::FromIdGenerator>::ts_field_max() as int,
            ts2.spec_millis() <= <Self as traits::FromIdGenerator>::ts_field_max() as int,
            1 <= seq1 <= <Self as traits::FromIdGenerator>::seq_field_max(),
            1 <= seq2 <= <Self as traits::FromIdGenerator>::seq_field_max(),
            ts1.spec_millis() < ts2.spec_millis() || (ts1.spec_millis() == ts2.spec_millis()
                && seq1 < seq2),
        ensures
            <Self as traits::FromIdGenerator>::made(ts1, seq1, ids).spec_id() < <Self as traits::FromIdGenerator>::made(ts2, seq2, ids).spec_id(),
    {
        codec::lemma_field_max_fits_i64(TS as nat);
        codec::lemma_field_max_fits_i64(SEQ as nat);
        vstd::arithmetic::power2::lemma_pow2_pos(TS as nat);
        vstd::arithmetic::power2::lemma_pow2_pos(SEQ as nat);
        assert(<Self as traits::FromIdGenerator>::ts_field_max() == Self::max_timestamp_spec());
        assert(<Self as traits::FromIdGenerator>::seq_field_max() == Self::max_sequence_spec());
        let a = <Self as traits::FromIdGenerator>::made(ts1, seq1, ids);
        let b = <Self as traits::FromIdGenerator>::made(ts2, seq2, ids);
        Self::lemma_id_ordered(a, b);
    }

    /// Law: among well-formed flakes with the same primary id, packed ids
    /// are ordered like their (timestamp, sequence) pairs, so no two such
    /// distinct pairs collide.
    pub proof fn lemma_id_ordered(a: Self, b: Self)
        requires
            Self::layout_ok(),
            a.wf(),
            b.wf(),
            a.pid == b.pid,
            a.tsm < b.tsm || (a.tsm == b.tsm && a.seq < b.seq),
        ensures
            a.spec_id() < b.spec_id(),
    {
        codec::lemma_pack3_monotone(
            a.tsm as int,
            a.pid as int,
            a.seq as int,
            b.tsm as int,
            b.pid as int,
            b.seq as int,
            PID as nat,
            SEQ as nat,
        );
    }
}

impl<const TS: u8, const PID: u8, const SEQ: u8> PartialEq for SingleIdFlake<TS, PID, SEQ> {
    /// Two flakes are equal when their decoded fields agree; the retained
    /// creation instant is left out.
    fn eq(&self, rhs: &Self) -> (r: bool) {
        self.tsm == rhs.tsm && self.pid == rhs.pid && self.seq == rhs.seq
    }
}

impl<const TS: u8, const PID: u8, const SEQ: u8> vstd::std_specs::cmp::PartialEqSpecImpl
    for SingleIdFlake<TS, PID, SEQ> {
    open spec fn obeys_eq_spec() -> bool {
        true
    }

    open spec fn eq_spec(&self, rhs: &Self) -> bool {
        self.tsm == rhs.tsm && self.pid == rhs.pid && self.seq == rhs.seq
    }
}

impl<const TS: u8, const PID: u8, const SEQ: u8> traits::Id for SingleIdFlake<TS, PID, SEQ> {
    type BaseType = i64;

    open spec fn id_ready(&self) -> bool {
        Self::layout_ok() && self.wf()
    }

    open spec fn base(&self) -> i64 {
        self.spec_id() as i64
    }

    fn id(&self) -> (r: i64) {
        SingleIdFlake::id(self)
    }
}

impl<const TS: u8, const PID: u8, const SEQ: u8> traits::FromIdGenerator
    for SingleIdFlake<TS, PID, SEQ> {
    type IdSegType = Segments<i64, 1>;

    open spec fn layout_valid() -> bool {
        Self::layout_ok()
    }

    /// The single segment must be positive and fit the primary id field.
    open spec fn seg_ok(v: Segments<i64, 1>) -> bool {
        0 < v.0@[0] <= Self::max_primary_id_spec()
    }

    open spec fn ts_field_max() -> u64 {
        Self::max_timestamp_spec() as u64
    }

    open spec fn seq_field_max() -> u64 {
        Self::max_sequence_spec() as u64
    }

    open spec fn made(ts: Dur, seq: u64, ids: Segments<i64, 1>) -> Self {
        SingleIdFlake {
            dur: Some(ts),
            tsm: ts.spec_millis() as i64,
            pid: ids.0@[0],
            seq: seq as i64,
        }
    }


    proof fn seq_max_bound() {
        codec::lemma_field_max_widens(1, SEQ as nat);
        codec::lemma_field_max_widens(SEQ as nat, 63);
        vstd::arithmetic::power2::lemma2_to64();
        vstd::arithmetic::power2::lemma2_to64_rest();
    }

    fn ts_limit() -> (r: u64) {
        proof {
            codec::lemma_field_max_fits_i64(TS as nat);
        }
        codec::max_u64(TS)
    }

    fn seq_limit() -> (r: u64) {
        proof {
            codec::lemma_field_max_fits_i64(SEQ as nat);
        }
        codec::max_u64(SEQ)
    }

    fn valid_id(v: &Segments<i64, 1>) -> (r: bool) {
        let p = v.primary();
        *p > 0 && *p <= Self::max_primary_id()
    }

    fn valid_epoch(e: &u64) -> (r: bool) {
        proof {
            codec::lemma_field_max_fits_i64(TS as nat);
            vstd::arithmetic::power2::lemma_pow2_pos(TS as nat);
        }
        *e <= codec::max_u64(TS)
    }

    fn max_sequence(seq: &u64) -> (r: bool) {
        proof {
            codec::lemma_field_max_fits_i64(SEQ as nat);
            vstd::arithmetic::power2::lemma_pow2_pos(SEQ as nat);
        }
        *seq > codec::max_u64(SEQ)
    }

    fn max_duration(ts: &Dur) -> (r: bool) {
        proof {
            codec::lemma_field_max_fits_i64(TS as nat);
            vstd::arithmetic::power2::lemma_pow2_pos(TS as nat);
        }
        ts.as_millis() > codec::max_u64(TS) as u128
    }

    fn create(ts: Dur, seq: u64, ids: &Segments<i64, 1>) -> (r: Self) {
        proof {
            codec::lemma_field_max_fits_i64(TS as nat);
            codec::lemma_field_max_fits_i64(SEQ as nat);
            vstd::arithmetic::power2::lemma_pow2_pos(TS as nat);
        }
        let tsm = ts.as_millis() as i64;
        SingleIdFlake { dur: Some(ts), tsm, pid: *ids.primary(), seq: seq as i64 }
    }
}

/// Assembles a [`SingleIdFlake`] step by step from a timestamp, a sequence
/// value and the creation instant.
pub struct Builder<const TS: u8, const PID: u8, const SEQ: u8> {
    pub dur: Dur,
    pub ts: u64,
    pub pid: i64,
    pub seq: u64,
}

impl<const TS: u8, const PID: u8, const SEQ: u8> traits::IdBuilder for Builder<TS, PID, SEQ> {
    type Output = SingleIdFlake<TS, PID, SEQ>;

    fn with_ts(&mut self, ts: u64) -> (r: bool)
        ensures
            SingleIdFlake::<TS, PID, SEQ>::layout_ok() ==> r == (ts <= SingleIdFlake::<
                TS,
                PID,
                SEQ,
            >::max_timestamp_spec()),
            r ==> *final(self) == (Builder { ts, ..*old(self) }),
            !r ==> *final(self) == *old(self),
    {
        if TS >= 64 {
            false
        } else {
            proof {
                codec::lemma_field_max_fits_i64(TS as nat);
                vstd::arithmetic::power2::lemma_pow2_pos(TS as nat);
            }
            if ts > codec::max_u64(TS) {
                false
            } else {
                self.ts = ts;
                true
            }
        }
    }

    fn with_seq(&mut self, seq: u64) -> (r: bool)
        ensures
            SingleIdFlake::<TS, PID, SEQ>::layout_ok() ==> r == (seq <= SingleIdFlake::<
                TS,
                PID,
                SEQ,
            >::max_sequence_spec()),
            r ==> *final(self) == (Builder { seq, ..*old(self) }),
            !r ==> *final(self) == *old(self),
    {
        if SEQ >= 64 {
            false
        } else {
            proof {
                codec::lemma_field_max_fits_i64(SEQ as nat);
                vstd::arithmetic::power2::lemma_pow2_pos(SEQ as nat);
            }
            if seq > codec::max_u64(SEQ) {
                false
            } else {
                self.seq = seq;
                true
            }
        }
    }

    fn with_dur(&mut self, dur: Dur)
        ensures
            *final(self) == (Builder { dur, ..*old(self) }),
    {
        self.dur = dur;
    }

    fn build(self) -> (r: SingleIdFlake<TS, PID, SEQ>)
        ensures
            r == (SingleIdFlake::<TS, PID, SEQ> {
                dur: Some(self.dur),
                tsm: self.ts as i64,
                pid: self.pid,
                seq: self.seq as i64,
            }),
    {
        SingleIdFlake {
            dur: Some(self.dur),
            tsm: self.ts as i64,
            pid: self.pid,
            seq: self.seq as i64,
        }
    }
}

} // verus!
