//! The tick/sequence state shared by every generator, and the state machine
//! that advances it.
//!
//! A generator holds a [`Counts`]: the previous tick (the elapsed time since
//! the generator's epoch when an id was last minted) and the sequence value
//! the next id on that tick will carry. One [`step`] of the machine reads a
//! freshly measured elapsed time and either hands out the next sequence
//! value on the same millisecond, resets the sequence on a new millisecond,
//! or fails — finally when the timestamp field is exhausted, recoverably
//! when the sequence field is.

use vstd::prelude::*;

use crate::dur::{Dur, NANOS_PER_MILLI};
use crate::error::Error;

verus! {

/// Stores the sequence and previous tick for a generator.
#[derive(Clone, Copy, Debug)]
pub struct Counts {
    pub sequence: u64,
    pub prev_time: Dur,
}

impl Counts {
    /// The sequence is always at least one (the value the next same-tick id
    /// will carry), and the previous tick is a well-formed span.
    pub open spec fn wf(self) -> bool {
        1 <= self.sequence && self.prev_time.wf()
    }
}

/// The estimated wait from `ts` to the next millisecond boundary:
/// `1_000_000 - (subsecond nanoseconds mod 1_000_000)` nanoseconds.
pub open spec fn next_tick_wait_spec(ts: Dur) -> Dur {
    Dur { secs: 0, nanos: (NANOS_PER_MILLI - ts.nanos % NANOS_PER_MILLI) as u32 }
}

/// Computes the wait until the next millisecond boundary after `ts`.
pub fn next_tick_wait(ts: &Dur) -> (r: Dur)
    ensures
        r == next_tick_wait_spec(*ts),
        r.wf(),
        0 < r.nanos <= NANOS_PER_MILLI,
        r.secs == 0,
{
    Dur { secs: 0, nanos: NANOS_PER_MILLI - ts.nanos % NANOS_PER_MILLI }
}

/// One transition of the tick/sequence state machine, as a function of the
/// state, the freshly measured elapsed time `ts`, and the field limits.
///
/// Returns the new state and either the sequence value to mint with, or the
/// error to report. The state only advances when a value is minted.
pub open spec fn step_spec(c: Counts, ts: Dur, max_ts: u64, max_seq: u64) -> (Counts, Result<
    u64,
    Error,
>) {
    if ts.spec_millis() > max_ts as int {
        (c, Err(Error::TimestampMaxReached))
    } else if ts.spec_millis() == c.prev_time.spec_millis() {
        if c.sequence > max_seq {
            (c, Err(Error::SequenceMaxReached(next_tick_wait_spec(ts))))
        } else {
            (
                Counts { sequence: (c.sequence + 1) as u64, prev_time: c.prev_time },
                Ok(c.sequence),
            )
        }
    } else {
        (Counts { sequence: 2, prev_time: ts }, Ok(1))
    }
}

/// Advances the tick/sequence state for a call that measured the elapsed
/// time `ts`, exactly as [`step_spec`] describes:
///
/// - a timestamp beyond `max_ts` fails finally with `TimestampMaxReached`;
/// - on the same millisecond as the previous tick, the stored sequence is
///   minted and incremented, unless it exceeds `max_seq`, which fails
///   recoverably with `SequenceMaxReached` and a positive wait estimate of
///   at most one millisecond;
/// - on a new millisecond, sequence one is minted and the tick is reset.
pub fn step(counts: &mut Counts, ts: &Dur, max_ts: u64, max_seq: u64) -> (r: Result<u64, Error>)
    requires
        old(counts).wf(),
        ts.wf(),
        1 <= max_seq < u64::MAX,
    ensures
        (*final(counts), r) == step_spec(*old(counts), *ts, max_ts, max_seq),
        final(counts).wf(),
        r matches Ok(seq) ==> 1 <= seq <= max_seq && ts.spec_millis() <= max_ts as int,
        r is Err ==> *final(counts) == *old(counts),
{
    if ts.as_millis() > max_ts as u128 {
        return Err(Error::TimestampMaxReached);
    }
    if ts.same_millis(&counts.prev_time) {
        let seq = counts.sequence;
        if seq > max_seq {
            return Err(Error::SequenceMaxReached(next_tick_wait(ts)));
        }
        counts.sequence = seq + 1;
        Ok(seq)
    } else {
        counts.prev_time = *ts;
        counts.sequence = 2;
        Ok(1)
    }
}

/// The key that orders everything a generator hands out: the millisecond an
/// id was minted on, then its sequence value. The state's own key (previous
/// tick, next sequence) rises past every minted key.
pub open spec fn lex_lt(m1: int, s1: int, m2: int, s2: int) -> bool {
    m1 < m2 || (m1 == m2 && s1 < s2)
}

/// Non-strict version of [`lex_lt`].
pub open spec fn lex_le(m1: int, s1: int, m2: int, s2: int) -> bool {
    m1 < m2 || (m1 == m2 && s1 <= s2)
}

/// One step never lowers the state key, keeps it at or below the measured
/// millisecond, and mints a key between the old and new state keys.
pub proof fn lemma_step_key(c: Counts, ts: Dur, max_ts: u64, max_seq: u64)
    requires
        c.wf(),
        ts.wf(),
        max_seq < u64::MAX,
        c.prev_time.spec_millis() <= ts.spec_millis(),
    ensures
        ({
            let (c2, r) = step_spec(c, ts, max_ts, max_seq);
            &&& c2.wf()
            &&& c2.prev_time.spec_millis() <= ts.spec_millis()
            &&& lex_le(
                c.prev_time.spec_millis(),
                c.sequence as int,
                c2.prev_time.spec_millis(),
                c2.sequence as int,
            )
            &&& (r matches Ok(s) ==> lex_le(
                c.prev_time.spec_millis(),
                c.sequence as int,
                ts.spec_millis(),
                s as int,
            ) && lex_lt(
                ts.spec_millis(),
                s as int,
                c2.prev_time.spec_millis(),
                c2.sequence as int,
            ))
            &&& (r is Err ==> c2 == c)
        }),
{
    let (c2, r) = step_spec(c, ts, max_ts, max_seq);
    if ts.spec_millis() > max_ts as int {
    } else if ts.spec_millis() == c.prev_time.spec_millis() {
        if c.sequence <= max_seq {
            assert(c2.sequence == c.sequence + 1);
        }
    } else {
        assert(c.prev_time.spec_millis() < ts.spec_millis());
        assert(c2 == Counts { sequence: 2u64, prev_time: ts });
    }
}

/// The sequence of results the state machine produces from state `c` when
/// the successive calls measure the elapsed times `tss`.
pub open spec fn run_outs(c: Counts, tss: Seq<Dur>, max_ts: u64, max_seq: u64) -> Seq<
    Result<u64, Error>,
>
    decreases tss.len(),
{
    if tss.len() == 0 {
        Seq::empty()
    } else {
        let (c2, r) = step_spec(c, tss[0], max_ts, max_seq);
        seq![r] + run_outs(c2, tss.drop_first(), max_ts, max_seq)
    }
}

/// The sequence value carried by a successful result.
pub open spec fn ok_val(r: Result<u64, Error>) -> u64 {
    match r {
        Ok(v) => v,
        Err(_) => 0,
    }
}

/// Every measured elapsed time is a well-formed span.
pub open spec fn all_wf(tss: Seq<Dur>) -> bool {
    forall|k: int| 0 <= k < tss.len() ==> (#[trigger] tss[k]).wf()
}

/// The measured elapsed times never step backwards across a run.
pub open spec fn millis_nondecreasing(tss: Seq<Dur>) -> bool {
    forall|k: int, l: int|
        0 <= k <= l < tss.len() ==> #[trigger] tss[k].spec_millis() <= #[trigger] tss[
            l
        ].spec_millis()
}

/// Every key minted during a run lies at or above the starting state's key.
pub proof fn lemma_run_emit_lower(c: Counts, tss: Seq<Dur>, max_ts: u64, max_seq: u64, k: int)
    requires
        c.wf(),
        max_seq < u64::MAX,
        all_wf(tss),
        millis_nondecreasing(tss),
        tss.len() > 0 ==> c.prev_time.spec_millis() <= tss[0].spec_millis(),
        0 <= k < tss.len(),
        run_outs(c, tss, max_ts, max_seq)[k] is Ok,
    ensures
        lex_le(
            c.prev_time.spec_millis(),
            c.sequence as int,
            tss[k].spec_millis(),
            ok_val(run_outs(c, tss, max_ts, max_seq)[k]) as int,
        ),
    decreases k,
{
    let (c2, r) = step_spec(c, tss[0], max_ts, max_seq);
    let rest = tss.drop_first();
    lemma_step_key(c, tss[0], max_ts, max_seq);
    lemma_run_outs_index(c, tss, max_ts, max_seq, k);
    if k == 0 {
        // The first step mints at or above the state key directly.
    } else {
        if rest.len() > 0 {
            assert(rest[0] == tss[1]);
            assert(c2.prev_time.spec_millis() <= rest[0].spec_millis());
        }
        lemma_run_emit_lower(c2, rest, max_ts, max_seq, k - 1);
        assert(rest[k - 1] == tss[k]);
    }
}

/// Law: within one run of the state machine whose measured times never step
/// backwards, the (millisecond, sequence) keys of any two successfully
/// minted ids grow strictly in call order — so all minted ids with the same
/// partition segments are pairwise distinct.
pub proof fn lemma_run_keys_increase(
    c: Counts,
    tss: Seq<Dur>,
    max_ts: u64,
    max_seq: u64,
    i: int,
    j: int,
)
    requires
        c.wf(),
        max_seq < u64::MAX,
        all_wf(tss),
        millis_nondecreasing(tss),
        tss.len() > 0 ==> c.prev_time.spec_millis() <= tss[0].spec_millis(),
        0 <= i < j < tss.len(),
        run_outs(c, tss, max_ts, max_seq)[i] is Ok,
        run_outs(c, tss, max_ts, max_seq)[j] is Ok,
    ensures
        lex_lt(
            tss[i].spec_millis(),
            ok_val(run_outs(c, tss, max_ts, max_seq)[i]) as int,
            tss[j].spec_millis(),
            ok_val(run_outs(c, tss, max_ts, max_seq)[j]) as int,
        ),
    decreases i,
{
    let (c2, r) = step_spec(c, tss[0], max_ts, max_seq);
    let rest = tss.drop_first();
    lemma_step_key(c, tss[0], max_ts, max_seq);
    lemma_run_outs_index(c, tss, max_ts, max_seq, i);
    lemma_run_outs_index(c, tss, max_ts, max_seq, j);
    if rest.len() > 0 {
        assert(rest[0] == tss[1]);
        assert(c2.prev_time.spec_millis() <= rest[0].spec_millis());
    }
    if i == 0 {
        // The first minted key lies strictly below the new state key, which
        // bounds every later minted key from below.
        lemma_run_emit_lower(c2, rest, max_ts, max_seq, j - 1);
        assert(rest[j - 1] == tss[j]);
    } else {
        lemma_run_keys_increase(c2, rest, max_ts, max_seq, i - 1, j - 1);
        assert(rest[i - 1] == tss[i]);
        assert(rest[j - 1] == tss[j]);
    }
}

/// Law: starting from a fresh state on the current millisecond (sequence
/// one, previous tick on the same millisecond as the clock), a run of
/// `max_seq + 1` calls within that single millisecond mints exactly
/// `max_seq` ids, with sequence values counting up from one, and then fails
/// once with `SequenceMaxReached` carrying a positive wait estimate of at
/// most one millisecond.
pub proof fn lemma_sequence_exhaustion(
    c: Counts,
    tss: Seq<Dur>,
    max_ts: u64,
    max_seq: u64,
    k: int,
)
    requires
        c.wf(),
        max_seq < u64::MAX,
        tss.len() == max_seq + 1 - (c.sequence - 1),
        forall|l: int|
            0 <= l < tss.len() ==> (#[trigger] tss[l]).spec_millis()
                == c.prev_time.spec_millis() && tss[l].wf(),
        c.prev_time.spec_millis() <= max_ts as int,
        c.sequence <= max_seq + 1,
        0 <= k < tss.len(),
    ensures
        ({
            let outs = run_outs(c, tss, max_ts, max_seq);
            &&& outs.len() == tss.len()
            &&& (k < tss.len() - 1 ==> outs[k] == Ok::<u64, Error>((c.sequence + k) as u64))
            &&& (k == tss.len() - 1 ==> outs[k] == Err::<u64, Error>(
                Error::SequenceMaxReached(next_tick_wait_spec(tss[k])),
            ))
        }),
    decreases tss.len(),
{
    let (c2, r) = step_spec(c, tss[0], max_ts, max_seq);
    let rest = tss.drop_first();
    lemma_run_outs_len(c, tss, max_ts, max_seq);
    lemma_run_outs_index(c, tss, max_ts, max_seq, k);
    if tss.len() == 1 {
        // The single remaining call finds the sequence exhausted.
        assert(c.sequence == max_seq + 1);
    } else {
        assert(c.sequence <= max_seq);
        if k > 0 {
            lemma_run_outs_len(c2, rest, max_ts, max_seq);
            lemma_sequence_exhaustion(c2, rest, max_ts, max_seq, k - 1);
            assert(rest[k - 1] == tss[k]);
        }
    }
}

/// Unfolds one call of a run: the first result comes from the first step,
/// and the rest of the results are the run from the stepped state.
pub proof fn lemma_run_outs_index(c: Counts, tss: Seq<Dur>, max_ts: u64, max_seq: u64, k: int)
    requires
        0 <= k < tss.len(),
    ensures
        k == 0 ==> run_outs(c, tss, max_ts, max_seq)[k] == step_spec(
            c,
            tss[0],
            max_ts,
            max_seq,
        ).1,
        k > 0 ==> run_outs(c, tss, max_ts, max_seq)[k] == run_outs(
            step_spec(c, tss[0], max_ts, max_seq).0,
            tss.drop_first(),
            max_ts,
            max_seq,
        )[k - 1],
{
    let (c2, r) = step_spec(c, tss[0], max_ts, max_seq);
    let rest = tss.drop_first();
    lemma_run_outs_len(c2, rest, max_ts, max_seq);
    assert(run_outs(c, tss, max_ts, max_seq) == seq![r] + run_outs(c2, rest, max_ts, max_seq));
}

/// A run produces one result per call.
pub proof fn lemma_run_outs_len(c: Counts, tss: Seq<Dur>, max_ts: u64, max_seq: u64)
    ensures
        run_outs(c, tss, max_ts, max_seq).len() == tss.len(),
    decreases tss.len(),
{
    if tss.len() > 0 {
        let (c2, r) = step_spec(c, tss[0], max_ts, max_seq);
        lemma_run_outs_len(c2, tss.drop_first(), max_ts, max_seq);
    }
}

} // verus!
