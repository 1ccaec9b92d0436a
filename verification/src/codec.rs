//! Bit-field packing and unpacking on `u64`, the arithmetic core shared by
//! every flake format.
//!
//! A packed id is a place-value number: each field is multiplied by two to
//! the power of the combined width of the fields to its right, and the
//! results are added. Packing is done by shifting and or-ing, unpacking by
//! shifting and masking; the lemmas here relate those bit operations to the
//! place-value arithmetic and give the round-trip, range and ordering facts
//! the flake types and generators build on.

use vstd::prelude::*;
use vstd::arithmetic::power2::{
    pow2, lemma_pow2_adds, lemma_pow2_pos, lemma2_to64, lemma2_to64_rest,
};
use vstd::arithmetic::div_mod::{
    lemma_fundamental_div_mod_converse, lemma_div_denominator, lemma_small_mod,
};
use vstd::arithmetic::mul::{
    lemma_mul_inequality, lemma_mul_is_distributive_sub_other_way, lemma_mul_strict_inequality,
    lemma_mul_is_distributive_add_other_way,
};
use vstd::bits::{
    low_bits_mask, lemma_u64_shl_is_mul, lemma_u64_shr_is_div, lemma_u64_low_bits_mask_is_mod,
    lemma_u64_pow2_no_overflow,
};

verus! {

/// Largest value a field of the given width can hold.
pub open spec fn field_max(bits: nat) -> int {
    pow2(bits) - 1
}

/// `hi` placed in front of a `bits`-wide low field holding `lo`.
pub open spec fn place(hi: int, bits: nat, lo: int) -> int {
    hi * pow2(bits) + lo
}

/// A three-field id: timestamp, one partition segment, sequence.
pub open spec fn pack3(ts: int, pid: int, seq: int, pid_bits: nat, seq_bits: nat) -> int {
    place(place(ts, pid_bits, pid), seq_bits, seq)
}

/// A four-field id: timestamp, two partition segments, sequence.
pub open spec fn pack4(
    ts: int,
    pid: int,
    sid: int,
    seq: int,
    pid_bits: nat,
    sid_bits: nat,
    seq_bits: nat,
) -> int {
    place(place(place(ts, pid_bits, pid), sid_bits, sid), seq_bits, seq)
}

/// Two to the given power, as a machine word.
pub fn pow2_u64(e: u8) -> (r: u64)
    requires
        e < 64,
    ensures
        r == pow2(e as nat),
{
    proof {
        lemma_u64_pow2_no_overflow(e as nat);
        lemma_u64_shl_is_mul(1u64, e as u64);
    }
    1u64 << (e as u64)
}

/// Largest value a field of width `bits` can hold, as a machine word.
pub fn max_u64(bits: u8) -> (r: u64)
    requires
        bits < 64,
    ensures
        r == field_max(bits as nat),
        r == low_bits_mask(bits as nat),
{
    proof {
        lemma_pow2_pos(bits as nat);
    }
    pow2_u64(bits) - 1
}

/// Wider fields can hold larger values.
pub proof fn lemma_field_max_widens(a: nat, b: nat)
    requires
        a <= b,
    ensures
        field_max(a) <= field_max(b),
{
    if a < b {
        vstd::arithmetic::power2::lemma_pow2_strictly_increases(a, b);
    }
}

/// Whatever fits in 63 bits fits in a signed 64-bit word with the sign bit
/// clear.
pub proof fn lemma_field_max_fits_i64(bits: nat)
    requires
        bits <= 63,
    ensures
        field_max(bits) <= i64::MAX,
{
    lemma_field_max_widens(bits, 63);
    lemma2_to64_rest();
}

/// Shifting `hi` in front of `bits` low bits stays within the word.
pub proof fn lemma_hi_shift_fits(hi: u64, bits: nat)
    requires
        bits < 64,
        hi <= field_max((64 - bits) as nat),
    ensures
        hi * pow2(bits) <= u64::MAX - field_max(bits),
{
    lemma_pow2_adds((64 - bits) as nat, bits);
    lemma_pow2_pos(bits);
    lemma_pow2_pos((64 - bits) as nat);
    lemma2_to64();
    lemma2_to64_rest();
    lemma_mul_inequality(hi as int, field_max((64 - bits) as nat), pow2(bits) as int);
    lemma_mul_is_distributive_sub_other_way(pow2(bits) as int, pow2((64 - bits) as nat) as int, 1);
}

/// Packs `hi` in front of a `bits`-wide field holding `lo`.
pub fn combine(hi: u64, lo: u64, bits: u8) -> (r: u64)
    requires
        bits < 64,
        hi <= field_max((64 - bits) as nat),
        lo <= field_max(bits as nat),
    ensures
        r == place(hi as int, bits as nat, lo as int),
{
    proof {
        lemma_hi_shift_fits(hi, bits as nat);
        lemma_u64_pow2_no_overflow(bits as nat);
        lemma_u64_shl_is_mul(hi, bits as u64);
    }
    (hi << (bits as u64)) + lo
}

/// The low `bits` bits of `x`: its value modulo two to `bits`.
pub fn take_low(x: u64, bits: u8) -> (r: u64)
    requires
        bits < 64,
    ensures
        r == (x as int) % (pow2(bits as nat) as int),
        r <= field_max(bits as nat),
{
    proof {
        lemma_u64_low_bits_mask_is_mod(x, bits as nat);
        lemma_pow2_pos(bits as nat);
        lemma_u64_pow2_no_overflow(bits as nat);
    }
    x & max_u64(bits)
}

/// Everything above the low `bits` bits of `x`: its value divided by two to `bits`.
pub fn shift_out(x: u64, bits: u8) -> (r: u64)
    requires
        bits < 64,
    ensures
        r == (x as int) / (pow2(bits as nat) as int),
{
    proof {
        lemma_u64_shr_is_div(x, bits as u64);
    }
    x >> (bits as u64)
}

/// Splitting a placed pair recovers both parts.
pub proof fn lemma_place_extract(hi: int, bits: nat, lo: int)
    requires
        0 <= lo < pow2(bits),
        0 <= hi,
    ensures
        place(hi, bits, lo) / (pow2(bits) as int) == hi,
        place(hi, bits, lo) % (pow2(bits) as int) == lo,
        place(hi, bits, lo) >= 0,
{
    lemma_pow2_pos(bits);
    lemma_fundamental_div_mod_converse(place(hi, bits, lo), pow2(bits) as int, hi, lo);
    vstd::arithmetic::mul::lemma_mul_nonnegative(hi, pow2(bits) as int);
}

/// A placed pair of in-range fields fits in the combined width.
pub proof fn lemma_place_bound(hi: int, hi_bits: nat, bits: nat, lo: int)
    requires
        0 <= hi <= field_max(hi_bits),
        0 <= lo <= field_max(bits),
    ensures
        0 <= place(hi, bits, lo) <= field_max(hi_bits + bits),
{
    lemma_pow2_adds(hi_bits, bits);
    lemma_pow2_pos(bits);
    lemma_pow2_pos(hi_bits);
    lemma_mul_inequality(hi, field_max(hi_bits), pow2(bits) as int);
    lemma_mul_is_distributive_sub_other_way(pow2(bits) as int, pow2(hi_bits) as int, 1);
    vstd::arithmetic::mul::lemma_mul_nonnegative(hi, pow2(bits) as int);
}

/// Place-value packing is strictly monotone in (high part, low part),
/// ordered lexicographically.
pub proof fn lemma_place_monotone(hi1: int, lo1: int, hi2: int, lo2: int, bits: nat)
    requires
        0 <= lo1 <= field_max(bits),
        0 <= lo2 <= field_max(bits),
        0 <= hi1,
        hi1 < hi2 || (hi1 == hi2 && lo1 < lo2),
    ensures
        place(hi1, bits, lo1) < place(hi2, bits, lo2),
{
    lemma_pow2_pos(bits);
    if hi1 < hi2 {
        lemma_mul_strict_inequality(hi1, hi2, pow2(bits) as int);
        lemma_mul_is_distributive_add_other_way(pow2(bits) as int, hi1, 1);
        lemma_mul_inequality(hi1 + 1, hi2, pow2(bits) as int);
    }
}

/// Unpacking a three-field id recovers every field, and the id fits in the
/// combined width.
pub proof fn lemma_pack3_extract(
    ts: int,
    pid: int,
    seq: int,
    ts_bits: nat,
    pid_bits: nat,
    seq_bits: nat,
)
    requires
        0 <= ts <= field_max(ts_bits),
        0 <= pid <= field_max(pid_bits),
        0 <= seq <= field_max(seq_bits),
    ensures
        ({
            let id = pack3(ts, pid, seq, pid_bits, seq_bits);
            &&& 0 <= id <= field_max(ts_bits + pid_bits + seq_bits)
            &&& id % (pow2(seq_bits) as int) == seq
            &&& (id / (pow2(seq_bits) as int)) % (pow2(pid_bits) as int) == pid
            &&& (id / (pow2(pid_bits + seq_bits) as int)) % (pow2(ts_bits) as int) == ts
            &&& id / (pow2(pid_bits + seq_bits) as int) == ts
        }),
{
    let inner = place(ts, pid_bits, pid);
    let id = pack3(ts, pid, seq, pid_bits, seq_bits);
    lemma_pow2_pos(seq_bits);
    lemma_pow2_pos(pid_bits);
    lemma_pow2_pos(ts_bits);
    lemma_place_bound(ts, ts_bits, pid_bits, pid);
    lemma_place_bound(inner, ts_bits + pid_bits, seq_bits, seq);
    lemma_place_extract(inner, seq_bits, seq);
    lemma_place_extract(ts, pid_bits, pid);
    lemma_div_denominator(id, pow2(seq_bits) as int, pow2(pid_bits) as int);
    lemma_pow2_adds(seq_bits, pid_bits);
    assert(pid_bits + seq_bits == seq_bits + pid_bits);
    assert(id / (pow2(pid_bits + seq_bits) as int) == ts);
    lemma_small_mod(ts as nat, pow2(ts_bits));
}

/// A three-field id grows strictly with its fields, compared
/// most-significant-first.
pub proof fn lemma_pack3_monotone(
    ts1: int,
    pid1: int,
    seq1: int,
    ts2: int,
    pid2: int,
    seq2: int,
    pid_bits: nat,
    seq_bits: nat,
)
    requires
        0 <= ts1,
        0 <= ts2,
        0 <= pid1 <= field_max(pid_bits),
        0 <= pid2 <= field_max(pid_bits),
        0 <= seq1 <= field_max(seq_bits),
        0 <= seq2 <= field_max(seq_bits),
        ts1 < ts2 || (ts1 == ts2 && pid1 < pid2) || (ts1 == ts2 && pid1 == pid2 && seq1 < seq2),
    ensures
        pack3(ts1, pid1, seq1, pid_bits, seq_bits) < pack3(ts2, pid2, seq2, pid_bits, seq_bits),
{
    let inner1 = place(ts1, pid_bits, pid1);
    let inner2 = place(ts2, pid_bits, pid2);
    lemma_pow2_pos(pid_bits);
    vstd::arithmetic::mul::lemma_mul_nonnegative(ts1, pow2(pid_bits) as int);
    if ts1 < ts2 || (ts1 == ts2 && pid1 < pid2) {
        lemma_place_monotone(ts1, pid1, ts2, pid2, pid_bits);
        lemma_place_monotone(inner1, seq1, inner2, seq2, seq_bits);
    } else {
        lemma_place_monotone(inner1, seq1, inner2, seq2, seq_bits);
    }
}

/// Unpacking a four-field id recovers every field, and the id fits in the
/// combined width.
pub proof fn lemma_pack4_extract(
    ts: int,
    pid: int,
    sid: int,
    seq: int,
    ts_bits: nat,
    pid_bits: nat,
    sid_bits: nat,
    seq_bits: nat,
)
    requires
        0 <= ts <= field_max(ts_bits),
        0 <= pid <= field_max(pid_bits),
        0 <= sid <= field_max(sid_bits),
        0 <= seq <= field_max(seq_bits),
    ensures
        ({
            let id = pack4(ts, pid, sid, seq, pid_bits, sid_bits, seq_bits);
            &&& 0 <= id <= field_max(ts_bits + pid_bits + sid_bits + seq_bits)
            &&& id % (pow2(seq_bits) as int) == seq
            &&& (id / (pow2(seq_bits) as int)) % (pow2(sid_bits) as int) == sid
            &&& (id / (pow2(sid_bits + seq_bits) as int)) % (pow2(pid_bits) as int) == pid
            &&& id / (pow2(pid_bits + sid_bits + seq_bits) as int) == ts
            &&& (id / (pow2(pid_bits + sid_bits + seq_bits) as int)) % (pow2(ts_bits) as int)
                == ts
        }),
{
    let inner = place(ts, pid_bits, pid);
    let mid = place(inner, sid_bits, sid);
    let id = pack4(ts, pid, sid, seq, pid_bits, sid_bits, seq_bits);
    lemma_pow2_pos(seq_bits);
    lemma_pow2_pos(sid_bits);
    lemma_pow2_pos(pid_bits);
    lemma_pow2_pos(ts_bits);
    lemma_place_bound(ts, ts_bits, pid_bits, pid);
    lemma_place_bound(inner, ts_bits + pid_bits, sid_bits, sid);
    lemma_place_bound(mid, ts_bits + pid_bits + sid_bits, seq_bits, seq);
    lemma_place_extract(mid, seq_bits, seq);
    lemma_place_extract(inner, sid_bits, sid);
    lemma_place_extract(ts, pid_bits, pid);
    // id / 2^seq_bits == mid, so dividing further peels sid and pid in turn.
    lemma_div_denominator(id, pow2(seq_bits) as int, pow2(sid_bits) as int);
    lemma_pow2_adds(seq_bits, sid_bits);
    assert(sid_bits + seq_bits == seq_bits + sid_bits);
    assert(id / (pow2(sid_bits + seq_bits) as int) == inner);
    lemma_div_denominator(id, pow2(sid_bits + seq_bits) as int, pow2(pid_bits) as int);
    lemma_pow2_adds(sid_bits + seq_bits, pid_bits);
    assert(pid_bits + sid_bits + seq_bits == sid_bits + seq_bits + pid_bits);
    assert(id / (pow2(pid_bits + sid_bits + seq_bits) as int) == ts);
    lemma_small_mod(ts as nat, pow2(ts_bits));
}

/// A four-field id grows strictly with its fields, compared
/// most-significant-first.
pub proof fn lemma_pack4_monotone(
    ts1: int,
    pid1: int,
    sid1: int,
    seq1: int,
    ts2: int,
    pid2: int,
    sid2: int,
    seq2: int,
    pid_bits: nat,
    sid_bits: nat,
    seq_bits: nat,
)
    requires
        0 <= ts1,
        0 <= ts2,
        0 <= pid1 <= field_max(pid_bits),
        0 <= pid2 <= field_max(pid_bits),
        0 <= sid1 <= field_max(sid_bits),
        0 <= sid2 <= field_max(sid_bits),
        0 <= seq1 <= field_max(seq_bits),
        0 <= seq2 <= field_max(seq_bits),
        ts1 < ts2 || (ts1 == ts2 && pid1 < pid2) || (ts1 == ts2 && pid1 == pid2 && sid1 < sid2)
            || (ts1 == ts2 && pid1 == pid2 && sid1 == sid2 && seq1 < seq2),
    ensures
        pack4(ts1, pid1, sid1, seq1, pid_bits, sid_bits, seq_bits) < pack4(
            ts2,
            pid2,
            sid2,
            seq2,
            pid_bits,
            sid_bits,
            seq_bits,
        ),
{
    let inner1 = place(ts1, pid_bits, pid1);
    let inner2 = place(ts2, pid_bits, pid2);
    let mid1 = place(inner1, sid_bits, sid1);
    let mid2 = place(inner2, sid_bits, sid2);
    lemma_pow2_pos(pid_bits);
    lemma_pow2_pos(sid_bits);
    vstd::arithmetic::mul::lemma_mul_nonnegative(ts1, pow2(pid_bits) as int);
    vstd::arithmetic::mul::lemma_mul_nonnegative(inner1, pow2(sid_bits) as int);
    if ts1 < ts2 || (ts1 == ts2 && pid1 < pid2) {
        lemma_place_monotone(ts1, pid1, ts2, pid2, pid_bits);
        lemma_place_monotone(inner1, sid1, inner2, sid2, sid_bits);
        lemma_place_monotone(mid1, seq1, mid2, seq2, seq_bits);
    } else if sid1 < sid2 {
        lemma_place_monotone(inner1, sid1, inner2, sid2, sid_bits);
        lemma_place_monotone(mid1, seq1, mid2, seq2, seq_bits);
    } else {
        lemma_place_monotone(mid1, seq1, mid2, seq2, seq_bits);
    }
}

} // verus!
