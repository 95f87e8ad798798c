//! Categorical sleep-scoring circuit: per-stage duration aggregation,
//! first-occurrence search, three threshold bucketings and a weighted,
//! rescaled combination — all over encrypted records.

use vstd::prelude::*;

use crate::engine::{
    add10, add8, add8_scalar, and_bool, cast_10_to_16, cast_bool_to_10, cast_bool_to_8, div8,
    encrypt10, encrypt4, eq4_scalar, gt10, gt16, le10, le16, mul10, mul16_scalar, mul8,
    mul8_scalar, not_bool, or_bool, select10, sub10, trivial10, trivial8, trivial_bool, Ct10, Ct4,
    Ct8, EvalContext,
};
use crate::model::{b2i, m10, m16, m4, m8};
use crate::CircuitError;

verus! {

/// One observation: an encrypted stage identifier and the encrypted start
/// and end minutes of its slot.
pub struct EncryptedRecord {
    pub stage_id: Ct4,
    pub slot_start: Ct10,
    pub slot_end: Ct10,
}

impl EncryptedRecord {
    /// The plaintext triple this record decrypts to.
    pub open spec fn pt(self) -> (u8, u16, u16) {
        (self.stage_id.pt(), self.slot_start.pt(), self.slot_end.pt())
    }

    /// All fields belong to the given context and fit their widths.
    pub open spec fn wf(self, ctx: EvalContext) -> bool {
        &&& self.stage_id.cx() == ctx.id()
        &&& self.slot_start.cx() == ctx.id()
        &&& self.slot_end.cx() == ctx.id()
        &&& self.stage_id.inv()
        &&& self.slot_start.inv()
        &&& self.slot_end.inv()
    }
}

/// The plaintext models of a sequence of encrypted records.
pub open spec fn rec_pts(s: Seq<EncryptedRecord>) -> Seq<(u8, u16, u16)> {
    s.map_values(|r: EncryptedRecord| r.pt())
}

/// All records of the sequence are well formed under the given context.
pub open spec fn recs_wf(s: Seq<EncryptedRecord>, ctx: EvalContext) -> bool {
    forall|i: int| 0 <= i < s.len() ==> s[i].wf(ctx)
}

/// A plaintext record is within the widths of its encrypted form.
pub open spec fn rec_valid(r: (u8, u16, u16)) -> bool {
    r.0 < 16 && r.1 < 1024 && r.2 < 1024
}

/// All plaintext records are within their widths.
pub open spec fn recs_valid(rs: Seq<(u8, u16, u16)>) -> bool {
    forall|i: int| 0 <= i < rs.len() ==> rec_valid(#[trigger] rs[i])
}

/// Total duration of the records of one stage, summed in order with the
/// 10-bit modular arithmetic the circuit uses: each record whose stage
/// matches contributes its (wrapping) slot length.
pub open spec fn stage_total(rs: Seq<(u8, u16, u16)>, sid: u8) -> u16
    decreases rs.len(),
{
    if rs.len() == 0 {
        0u16
    } else {
        let prev = stage_total(rs.drop_last(), sid);
        let r = rs.last();
        if r.0 == sid {
            m10(prev + m10(r.2 - r.1))
        } else {
            prev
        }
    }
}

/// A per-stage duration total always fits the 10-bit width.
pub proof fn lemma_stage_total_bound(rs: Seq<(u8, u16, u16)>, sid: u8)
    ensures
        stage_total(rs, sid) < 1024,
    decreases rs.len(),
{
    if rs.len() > 0 {
        lemma_stage_total_bound(rs.drop_last(), sid);
    }
}

/// Fold of a duration table's sleeping entries (stage other than 0), in
/// table order, with 10-bit modular addition.
pub open spec fn table_sleep(t: Seq<(u8, u16)>) -> u16
    decreases t.len(),
{
    if t.len() == 0 {
        0u16
    } else {
        let prev = table_sleep(t.drop_last());
        if t.last().0 != 0 {
            m10(prev + t.last().1)
        } else {
            prev
        }
    }
}

/// Fold of a duration table's in-bed entries (stage 0), in table order,
/// with 10-bit modular addition.
pub open spec fn table_in_bed(t: Seq<(u8, u16)>) -> u16
    decreases t.len(),
{
    if t.len() == 0 {
        0u16
    } else {
        let prev = table_in_bed(t.drop_last());
        if t.last().0 == 0 {
            m10(prev + t.last().1)
        } else {
            prev
        }
    }
}

/// Whether a record matches the search predicate: stage 0 when searching
/// the first in-bed record, any other stage when searching the first
/// sleeping record.
pub open spec fn stage_matches(r: (u8, u16, u16), in_bed: bool) -> bool {
    (r.0 == 0) == in_bed
}

/// Whether any record of the sequence matches.
pub open spec fn has_match(rs: Seq<(u8, u16, u16)>, in_bed: bool) -> bool {
    exists|j: int| 0 <= j < rs.len() && stage_matches(#[trigger] rs[j], in_bed)
}

/// Slot start of the first matching record, in input order; 0 when no
/// record matches.
pub open spec fn first_match_start(rs: Seq<(u8, u16, u16)>, in_bed: bool) -> u16
    decreases rs.len(),
{
    if rs.len() == 0 {
        0u16
    } else if has_match(rs.drop_last(), in_bed) {
        first_match_start(rs.drop_last(), in_bed)
    } else if stage_matches(rs.last(), in_bed) {
        rs.last().1
    } else {
        0u16
    }
}

/// A sequence without a match folds to 0.
pub proof fn lemma_first_match_none(rs: Seq<(u8, u16, u16)>, in_bed: bool)
    requires
        !has_match(rs, in_bed),
    ensures
        first_match_start(rs, in_bed) == 0,
    decreases rs.len(),
{
    if rs.len() > 0 {
        assert(!has_match(rs.drop_last(), in_bed)) by {
            assert(forall|j: int|
                0 <= j < rs.len() - 1 ==> rs.drop_last()[j] == #[trigger] rs[j]);
        }
        lemma_first_match_none(rs.drop_last(), in_bed);
        assert(!stage_matches(rs.last(), in_bed)) by {
            assert(rs.last() == rs[rs.len() - 1]);
        }
    }
}

/// The first matching slot start fits the 10-bit width when the records
/// do.
pub proof fn lemma_first_match_bound(rs: Seq<(u8, u16, u16)>, in_bed: bool)
    requires
        recs_valid(rs),
    ensures
        first_match_start(rs, in_bed) < 1024,
    decreases rs.len(),
{
    if rs.len() > 0 {
        assert(recs_valid(rs.drop_last())) by {
            assert(forall|j: int|
                0 <= j < rs.len() - 1 ==> rs.drop_last()[j] == #[trigger] rs[j]);
        }
        lemma_first_match_bound(rs.drop_last(), in_bed);
        assert(rs.last() == rs[rs.len() - 1]);
    }
}

/// Sleep onset latency: first sleeping slot start minus first in-bed slot
/// start, wrapping at the 10-bit width when the records are malformed.
pub open spec fn onset_latency(rs: Seq<(u8, u16, u16)>) -> u16 {
    m10(first_match_start(rs, false) - first_match_start(rs, true))
}

/// Total time asleep: the stage totals of the five sleeping stages, folded
/// in stage order with 10-bit modular addition.
pub open spec fn total_sleep_time_of(rs: Seq<(u8, u16, u16)>) -> u16 {
    m10(
        m10(
            m10(
                m10(
                    m10(0 + stage_total(rs, 1)) + stage_total(rs, 2),
                ) + stage_total(rs, 3),
            ) + stage_total(rs, 4),
        ) + stage_total(rs, 5),
    )
}

/// Total time in bed awake: the stage total of stage 0.
pub open spec fn total_in_bed_time_of(rs: Seq<(u8, u16, u16)>) -> u16 {
    stage_total(rs, 0)
}

/// Bucket of a total sleep time, by the 7h/6h/5h thresholds in minutes:
/// descending quality, 0 for the longest sleep.
pub open spec fn sleep_time_category(t: u16) -> u8 {
    if t > 420 {
        0u8
    } else if t > 360 {
        1u8
    } else if t > 300 {
        2u8
    } else {
        3u8
    }
}

/// Bucket of the sleep efficiency, decided by comparing `100 * sleep` with
/// `85/75/65 * in_bed`, each product taken at the 16-bit width exactly as
/// the circuit forms it. Stated as the indicator sum the circuit computes:
/// when a product wraps, the thresholds can fall out of order and two
/// indicators can hold at once; the sum is then still the circuit's value.
/// With `in_bed == 0` no division is performed anywhere: every threshold is
/// 0, and the bucket is 0 unless the sleep total is 0 too. Kept opaque: its
/// wrapped products are costly for the solver.
#[verifier::opaque]
pub open spec fn efficiency_category(s: u16, t: u16) -> u8 {
    let e = m16(s * 100);
    let t85 = m16(t * 85);
    let t75 = m16(t * 75);
    let t65 = m16(t * 65);
    m8(b2i(e <= t85 && e > t75) + 2 * b2i(e <= t75 && e > t65) + 3 * b2i(e <= t65))
}

/// Bucket of a sleep onset latency, by the 15/30/60 minute thresholds:
/// ascending badness, 0 for the fastest onset.
pub open spec fn latency_category(v: u16) -> u8 {
    if v <= 15 {
        0u8
    } else if v <= 30 {
        1u8
    } else if v <= 60 {
        2u8
    } else {
        3u8
    }
}

/// The sleep-time buckets partition the whole range: for every total,
/// exactly one of the four indicators the circuit sums is 1.
pub proof fn lemma_sleep_time_buckets_partition(t: u16)
    ensures
        b2i(t > 420) + b2i(t <= 420 && t > 360) + b2i(t <= 360 && t > 300) + b2i(t <= 300) == 1,
{
    crate::model::lemma_chain_buckets_partition(t as int, 420, 360, 300);
}

/// The latency buckets partition the whole range: for every latency,
/// exactly one of the four indicators the circuit sums is 1.
pub proof fn lemma_latency_buckets_partition(v: u16)
    ensures
        b2i(v <= 15) + b2i(v > 15 && v <= 30) + b2i(v > 30 && v <= 60) + b2i(v > 60) == 1,
{
    crate::model::lemma_chain_buckets_partition(v as int, 60, 30, 15);
}

/// The efficiency buckets partition the range as long as no threshold
/// product wraps at the 16-bit width, which holds up to 770 minutes in
/// bed: the largest multiplier is 85, and 771 * 85 already exceeds the
/// width. Beyond that the wrapped thresholds can fall out of order and
/// the partition genuinely fails.
pub proof fn lemma_efficiency_buckets_partition(s: u16, t: u16)
    requires
        t <= 770,
    ensures
        ({
            let e = m16(s * 100);
            let t85 = m16(t * 85);
            let t75 = m16(t * 75);
            let t65 = m16(t * 65);
            b2i(e > t85) + b2i(e <= t85 && e > t75) + b2i(e <= t75 && e > t65) + b2i(e <= t65)
                == 1
        }),
{
    assert(m16(t * 85) == t * 85 && m16(t * 75) == t * 75 && m16(t * 65) == t * 65);
    crate::model::lemma_chain_buckets_partition(
        m16(s * 100) as int,
        m16(t * 85) as int,
        m16(t * 75) as int,
        m16(t * 65) as int,
    );
}

/// The final score: the three category buckets summed, rescaled by 4/9 and
/// shifted to the nominal 1..5 range, with the 8-bit modular arithmetic
/// the circuit uses.
pub open spec fn sleep_score(rs: Seq<(u8, u16, u16)>) -> u8 {
    let cat_lat = latency_category(onset_latency(rs));
    let cat_time = sleep_time_category(total_sleep_time_of(rs));
    let cat_eff = efficiency_category(total_sleep_time_of(rs), total_in_bed_time_of(rs));
    let raw = m8(m8(m8(0 + cat_lat) + cat_time) + cat_eff);
    let scaled = m8(raw * 4);
    m8(scaled / 9 + 1)
}

/// Computes the total duration of each requested stage with masked
/// accumulation: for every stage and every record, unconditionally, the
/// (wrapping) slot length is added under an oblivious mask. There is no
/// early exit; the work is O(stages * records) by design, since the
/// predicate is encrypted.
pub fn compute_total_duration_per_stage(
    ctx: &EvalContext,
    records: &Vec<EncryptedRecord>,
    stages: &Vec<u8>,
) -> (r: Vec<(u8, Ct10)>)
    requires
        recs_wf(records@, *ctx),
        forall|j: int| 0 <= j < stages@.len() ==> stages@[j] < 16,
    ensures
        r@.len() == stages@.len(),
        forall|j: int|
            0 <= j < r@.len() ==> {
                &&& (#[trigger] r@[j]).0 == stages@[j]
                &&& r@[j].1.pt() == stage_total(rec_pts(records@), stages@[j])
                &&& r@[j].1.cx() == ctx.id()
                &&& r@[j].1.inv()
            },
{
    let ghost pts: Seq<(u8, u16, u16)> = rec_pts(records@);
    let mut total_durations: Vec<(u8, Ct10)> = Vec::new();
    let mut s: usize = 0;
    while s < stages.len()
        invariant
            0 <= s <= stages@.len(),
            recs_wf(records@, *ctx),
            forall|j: int| 0 <= j < stages@.len() ==> stages@[j] < 16,
            pts == rec_pts(records@),
            total_durations@.len() == s,
            forall|j: int|
                0 <= j < s ==> {
                    &&& (#[trigger] total_durations@[j]).0 == stages@[j]
                    &&& total_durations@[j].1.pt() == stage_total(pts, stages@[j])
                    &&& total_durations@[j].1.cx() == ctx.id()
                    &&& total_durations@[j].1.inv()
                },
        decreases stages@.len() - s,
    {
        let sid = stages[s];
        let mut total = trivial10(ctx, 0);
        let mut i: usize = 0;
        assert(pts.take(0) =~= Seq::<(u8, u16, u16)>::empty());
        while i < records.len()
            invariant
                0 <= i <= records@.len(),
                recs_wf(records@, *ctx),
                pts == rec_pts(records@),
                sid < 16,
                total.cx() == ctx.id(),
                total.inv(),
                total.pt() == stage_total(pts.take(i as int), sid),
            decreases records@.len() - i,
        {
            let record = &records[i];
            proof {
                assert(pts.take(i + 1).drop_last() =~= pts.take(i as int));
                assert(pts.take(i + 1).last() == records@[i as int].pt());
            }
            let is_current_stage = eq4_scalar(ctx, &record.stage_id, sid);
            let slot_duration = sub10(ctx, &record.slot_end, &record.slot_start);
            let zero = trivial10(ctx, 0);
            let partial_duration = select10(ctx, &is_current_stage, &slot_duration, &zero);
            total = add10(ctx, &total, &partial_duration);
            i = i + 1;
        }
        proof {
            assert(pts.take(i as int) =~= pts);
        }
        total_durations.push((sid, total));
        s = s + 1;
    }
    total_durations
}

/// Splits a duration table into total sleep time (all sleeping stages) and
/// total in-bed time (stage 0). The stage identifiers of the table are
/// public, so this may branch on them.
pub fn compute_sleep_time_from_durations(ctx: &EvalContext, total_durations: &Vec<(u8, Ct10)>) -> (r:
    (Ct10, Ct10))
    requires
        forall|j: int|
            0 <= j < total_durations@.len() ==> (#[trigger] total_durations@[j]).1.cx()
                == ctx.id(),
    ensures
        r.0.pt() == table_sleep(table_pts(total_durations@)),
        r.1.pt() == table_in_bed(table_pts(total_durations@)),
        r.0.cx() == ctx.id(),
        r.1.cx() == ctx.id(),
{
    let ghost tp: Seq<(u8, u16)> = table_pts(total_durations@);
    let mut total_sleep_time = trivial10(ctx, 0);
    let mut total_in_bed_time = trivial10(ctx, 0);
    let mut j: usize = 0;
    assert(tp.take(0) =~= Seq::<(u8, u16)>::empty());
    while j < total_durations.len()
        invariant
            0 <= j <= total_durations@.len(),
            forall|k: int|
                0 <= k < total_durations@.len() ==> (#[trigger] total_durations@[k]).1.cx()
                    == ctx.id(),
            tp == table_pts(total_durations@),
            total_sleep_time.cx() == ctx.id(),
            total_in_bed_time.cx() == ctx.id(),
            total_sleep_time.pt() == table_sleep(tp.take(j as int)),
            total_in_bed_time.pt() == table_in_bed(tp.take(j as int)),
        decreases total_durations@.len() - j,
    {
        proof {
            assert(tp.take(j + 1).drop_last() =~= tp.take(j as int));
            assert(tp.take(j + 1).last() == (total_durations@[j as int].0, total_durations@[
                j as int].1.pt()));
        }
        let entry = &total_durations[j];
        if entry.0 == 0 {
            total_in_bed_time = add10(ctx, &total_in_bed_time, &entry.1);
        } else {
            total_sleep_time = add10(ctx, &total_sleep_time, &entry.1);
        }
        j = j + 1;
    }
    proof {
        assert(tp.take(j as int) =~= tp);
    }
    (total_sleep_time, total_in_bed_time)
}

/// The plaintext models of a duration table.
pub open spec fn table_pts(t: Seq<(u8, Ct10)>) -> Seq<(u8, u16)> {
    t.map_values(|e: (u8, Ct10)| (e.0, e.1.pt()))
}

/// Oblivious first-occurrence search, twice over the records in input
/// order: the slot start of the first in-bed record and of the first
/// sleeping record, combined into the onset latency. A running encrypted
/// `found` flag masks every later match; the single left-to-right pass is
/// what makes the fold a first-occurrence search.
pub fn compute_sleep_onset_latency(ctx: &EvalContext, records: &Vec<EncryptedRecord>) -> (r: Ct10)
    requires
        recs_wf(records@, *ctx),
    ensures
        r.pt() == onset_latency(rec_pts(records@)),
        r.cx() == ctx.id(),
{
    let ghost pts: Seq<(u8, u16, u16)> = rec_pts(records@);
    proof {
        assert(recs_valid(pts));
    }
    let mut first_in_bed_time = trivial10(ctx, 0);
    let mut first_sleep_time = trivial10(ctx, 0);
    let mut found_in_bed = trivial_bool(ctx, false);
    let mut found_sleep = trivial_bool(ctx, false);
    let mut i: usize = 0;
    assert(pts.take(0) =~= Seq::<(u8, u16, u16)>::empty());
    while i < records.len()
        invariant
            0 <= i <= records@.len(),
            recs_wf(records@, *ctx),
            pts == rec_pts(records@),
            recs_valid(pts),
            first_in_bed_time.cx() == ctx.id(),
            first_sleep_time.cx() == ctx.id(),
            found_in_bed.cx() == ctx.id(),
            found_sleep.cx() == ctx.id(),
            found_in_bed.pt() == has_match(pts.take(i as int), true),
            found_sleep.pt() == has_match(pts.take(i as int), false),
            first_in_bed_time.pt() == first_match_start(pts.take(i as int), true),
            first_sleep_time.pt() == first_match_start(pts.take(i as int), false),
        decreases records@.len() - i,
    {
        let record = &records[i];
        proof {
            assert(pts.take(i + 1).drop_last() =~= pts.take(i as int));
            assert(pts[i as int] == records@[i as int].pt());
            assert(pts.take(i + 1).last() == pts[i as int]);
            assert(rec_valid(pts[i as int]));
            if !has_match(pts.take(i as int), true) {
                lemma_first_match_none(pts.take(i as int), true);
            }
            if !has_match(pts.take(i as int), false) {
                lemma_first_match_none(pts.take(i as int), false);
            }
            lemma_first_match_bound(pts.take(i as int), true);
            lemma_first_match_bound(pts.take(i as int), false);
        }
        let ghost old_fib: u16 = first_in_bed_time.pt();
        let is_in_bed = eq4_scalar(ctx, &record.stage_id, 0);
        let is_sleeping = not_bool(ctx, &is_in_bed);

        let not_found_in_bed = not_bool(ctx, &found_in_bed);
        let should_update_in_bed = and_bool(ctx, &not_found_in_bed, &is_in_bed);
        let in_bed_mask = cast_bool_to_10(ctx, &should_update_in_bed);
        let update_in_bed_time = mul10(ctx, &record.slot_start, &in_bed_mask);
        first_in_bed_time = add10(ctx, &first_in_bed_time, &update_in_bed_time);
        found_in_bed = or_bool(ctx, &found_in_bed, &is_in_bed);
        proof {
            let prefix = pts.take(i as int);
            let grown = pts.take(i + 1);
            let rec = pts[i as int];
            assert(is_in_bed.pt() == stage_matches(rec, true));
            assert(in_bed_mask.pt() == (if !has_match(prefix, true) && stage_matches(rec, true) {
                1u16
            } else {
                0u16
            }));
            assert(update_in_bed_time.pt() == m10(rec.1 * in_bed_mask.pt()));
            assert(first_in_bed_time.pt() == m10(old_fib + update_in_bed_time.pt()));
            if has_match(prefix, true) {
                assert(first_match_start(grown, true) == first_match_start(prefix, true));
                assert(first_in_bed_time.pt() == first_match_start(prefix, true));
            } else if stage_matches(rec, true) {
                assert(first_match_start(grown, true) == rec.1);
                assert(first_in_bed_time.pt() == rec.1);
            } else {
                assert(first_match_start(grown, true) == 0);
                assert(first_in_bed_time.pt() == 0);
            }
        }

        let not_found_sleep = not_bool(ctx, &found_sleep);
        let should_update_sleep = and_bool(ctx, &not_found_sleep, &is_sleeping);
        let sleep_mask = cast_bool_to_10(ctx, &should_update_sleep);
        let update_sleep_time = mul10(ctx, &record.slot_start, &sleep_mask);
        first_sleep_time = add10(ctx, &first_sleep_time, &update_sleep_time);
        found_sleep = or_bool(ctx, &found_sleep, &is_sleeping);
        proof {
            let prefix = pts.take(i as int);
            let grown = pts.take(i + 1);
            let rec = pts[i as int];
            if has_match(prefix, false) {
                assert(first_match_start(grown, false) == first_match_start(prefix, false));
                assert(first_sleep_time.pt() == first_match_start(prefix, false));
            } else if stage_matches(rec, false) {
                assert(first_match_start(grown, false) == rec.1);
                assert(first_sleep_time.pt() == rec.1);
            } else {
                assert(first_match_start(grown, false) == 0);
                assert(first_sleep_time.pt() == 0);
            }
        }

        proof {
            let prefix = pts.take(i as int);
            let grown = pts.take(i + 1);
            if has_match(prefix, true) {
                assert(has_match(grown, true));
            }
            if has_match(prefix, false) {
                assert(has_match(grown, false));
            }
        }
        i = i + 1;
    }
    proof {
        assert(pts.take(i as int) =~= pts);
    }
    sub10(ctx, &first_sleep_time, &first_in_bed_time)
}

/// Buckets a total sleep time by the 7h/6h/5h thresholds, obliviously:
/// every bucket indicator is computed, cast to 0/1, weighted by its index
/// and summed. The four predicates partition the whole 10-bit range, so
/// exactly one indicator is 1.
pub fn evaluate_total_sleep_time(ctx: &EvalContext, total_sleep_time: &Ct10) -> (r: Ct8)
    requires
        total_sleep_time.cx() == ctx.id(),
    ensures
        r.pt() == sleep_time_category(total_sleep_time.pt()),
        r.cx() == ctx.id(),
{
    let seven_hours = trivial10(ctx, 420);
    let six_hours = trivial10(ctx, 360);
    let five_hours = trivial10(ctx, 300);

    let is_greater_than_7h = gt10(ctx, total_sleep_time, &seven_hours);
    let le_7h = le10(ctx, total_sleep_time, &seven_hours);
    let gt_6h = gt10(ctx, total_sleep_time, &six_hours);
    let is_between_6h_and_7h = and_bool(ctx, &le_7h, &gt_6h);
    let le_6h = le10(ctx, total_sleep_time, &six_hours);
    let gt_5h = gt10(ctx, total_sleep_time, &five_hours);
    let is_between_5h_and_6h = and_bool(ctx, &le_6h, &gt_5h);
    let is_less_than_or_equal_5h = le10(ctx, total_sleep_time, &five_hours);

    let c0 = cast_bool_to_8(ctx, &is_greater_than_7h);
    let c1 = cast_bool_to_8(ctx, &is_between_6h_and_7h);
    let c2 = cast_bool_to_8(ctx, &is_between_5h_and_6h);
    let c3 = cast_bool_to_8(ctx, &is_less_than_or_equal_5h);
    let result_0 = mul8_scalar(ctx, &c0, 0);
    let result_1 = mul8_scalar(ctx, &c1, 1);
    let result_2 = mul8_scalar(ctx, &c2, 2);
    let result_3 = mul8_scalar(ctx, &c3, 3);

    let sum_01 = add8(ctx, &result_0, &result_1);
    let sum_012 = add8(ctx, &sum_01, &result_2);
    add8(ctx, &sum_012, &result_3)
}

/// Buckets the sleep efficiency, obliviously. The ratio is never formed:
/// `100 * sleep` is compared against `85/75/65 * in_bed`, so a zero in-bed
/// time needs no special case — every threshold is then 0.
pub fn evaluate_sleep_efficiency(
    ctx: &EvalContext,
    total_sleep_time: &Ct10,
    total_in_bed_time: &Ct10,
) -> (r: Ct8)
    requires
        total_sleep_time.cx() == ctx.id(),
        total_in_bed_time.cx() == ctx.id(),
        total_sleep_time.inv(),
        total_in_bed_time.inv(),
    ensures
        r.pt() == efficiency_category(total_sleep_time.pt(), total_in_bed_time.pt()),
        r.cx() == ctx.id(),
{
    proof {
        reveal(efficiency_category);
    }
    let sleep16 = cast_10_to_16(ctx, total_sleep_time);
    let in_bed16 = cast_10_to_16(ctx, total_in_bed_time);

    let sleep_efficiency = mul16_scalar(ctx, &sleep16, 100);
    let threshold_85 = mul16_scalar(ctx, &in_bed16, 85);
    let threshold_75 = mul16_scalar(ctx, &in_bed16, 75);
    let threshold_65 = mul16_scalar(ctx, &in_bed16, 65);

    let is_greater_than_85 = gt16(ctx, &sleep_efficiency, &threshold_85);
    let le_85 = le16(ctx, &sleep_efficiency, &threshold_85);
    let gt_75 = gt16(ctx, &sleep_efficiency, &threshold_75);
    let is_between_75_and_85 = and_bool(ctx, &le_85, &gt_75);
    let le_75 = le16(ctx, &sleep_efficiency, &threshold_75);
    let gt_65 = gt16(ctx, &sleep_efficiency, &threshold_65);
    let is_between_65_and_75 = and_bool(ctx, &le_75, &gt_65);
    let is_less_than_or_equal_65 = le16(ctx, &sleep_efficiency, &threshold_65);

    let c0 = cast_bool_to_8(ctx, &is_greater_than_85);
    let c1 = cast_bool_to_8(ctx, &is_between_75_and_85);
    let c2 = cast_bool_to_8(ctx, &is_between_65_and_75);
    let c3 = cast_bool_to_8(ctx, &is_less_than_or_equal_65);
    let result_0 = mul8_scalar(ctx, &c0, 0);
    let result_1 = mul8_scalar(ctx, &c1, 1);
    let result_2 = mul8_scalar(ctx, &c2, 2);
    let result_3 = mul8_scalar(ctx, &c3, 3);

    let sum_01 = add8(ctx, &result_0, &result_1);
    let sum_012 = add8(ctx, &sum_01, &result_2);
    add8(ctx, &sum_012, &result_3)
}

/// Buckets a sleep onset latency by the 15/30/60 minute thresholds,
/// obliviously.
pub fn evaluate_sleep_onset_latency(ctx: &EvalContext, sleep_onset_latency: &Ct10) -> (r: Ct8)
    requires
        sleep_onset_latency.cx() == ctx.id(),
    ensures
        r.pt() == latency_category(sleep_onset_latency.pt()),
        r.cx() == ctx.id(),
{
    let fifteen_minutes = trivial10(ctx, 15);
    let thirty_minutes = trivial10(ctx, 30);
    let sixty_minutes = trivial10(ctx, 60);

    let is_less_than_or_equal_15 = le10(ctx, sleep_onset_latency, &fifteen_minutes);
    let gt_15 = gt10(ctx, sleep_onset_latency, &fifteen_minutes);
    let le_30 = le10(ctx, sleep_onset_latency, &thirty_minutes);
    let is_between_15_and_30 = and_bool(ctx, &gt_15, &le_30);
    let gt_30 = gt10(ctx, sleep_onset_latency, &thirty_minutes);
    let le_60 = le10(ctx, sleep_onset_latency, &sixty_minutes);
    let is_between_30_and_60 = and_bool(ctx, &gt_30, &le_60);
    let is_greater_than_60 = gt10(ctx, sleep_onset_latency, &sixty_minutes);

    let c0 = cast_bool_to_8(ctx, &is_less_than_or_equal_15);
    let c1 = cast_bool_to_8(ctx, &is_between_15_and_30);
    let c2 = cast_bool_to_8(ctx, &is_between_30_and_60);
    let c3 = cast_bool_to_8(ctx, &is_greater_than_60);
    let result_0 = mul8_scalar(ctx, &c0, 0);
    let result_1 = mul8_scalar(ctx, &c1, 1);
    let result_2 = mul8_scalar(ctx, &c2, 2);
    let result_3 = mul8_scalar(ctx, &c3, 3);

    let sum_01 = add8(ctx, &result_0, &result_1);
    let sum_012 = add8(ctx, &sum_01, &result_2);
    add8(ctx, &sum_012, &result_3)
}

/// Unfolds the two table folds over the standard six-stage table.
proof fn lemma_table_folds6(t: Seq<(u8, u16)>)
    requires
        t.len() == 6,
        t[0].0 == 0,
        t[1].0 == 1,
        t[2].0 == 2,
        t[3].0 == 3,
        t[4].0 == 4,
        t[5].0 == 5,
    ensures
        table_sleep(t) == m10(
            m10(m10(m10(m10(0 + t[1].1) + t[2].1) + t[3].1) + t[4].1) + t[5].1,
        ),
        table_in_bed(t) == m10(0 + t[0].1),
{
    let t5 = t.drop_last();
    let t4 = t5.drop_last();
    let t3 = t4.drop_last();
    let t2 = t3.drop_last();
    let t1 = t2.drop_last();
    let t0 = t1.drop_last();
    assert(t0 =~= Seq::<(u8, u16)>::empty());
    assert(t1[0] == t[0] && t2[1] == t[1] && t3[2] == t[2] && t4[3] == t[3] && t5[4] == t[4]);
    assert(t1.last() == t[0] && t2.last() == t[1] && t3.last() == t[2] && t4.last() == t[3]
        && t5.last() == t[4] && t.last() == t[5]);
    assert(table_sleep(t0) == 0 && table_in_bed(t0) == 0);
    assert(table_sleep(t1) == 0 && table_in_bed(t1) == m10(0 + t[0].1));
    assert(table_sleep(t2) == m10(0 + t[1].1) && table_in_bed(t2) == table_in_bed(t1));
    assert(table_sleep(t3) == m10(table_sleep(t2) + t[2].1) && table_in_bed(t3) == table_in_bed(
        t2,
    ));
    assert(table_sleep(t4) == m10(table_sleep(t3) + t[3].1) && table_in_bed(t4) == table_in_bed(
        t3,
    ));
    assert(table_sleep(t5) == m10(table_sleep(t4) + t[4].1) && table_in_bed(t5) == table_in_bed(
        t4,
    ));
}

/// Evaluates the whole sleep-scoring circuit over the records: per-stage
/// masked duration sums, the two first-occurrence searches, the three
/// bucketings, and the weighted rescaling into the nominal 1..5 range.
pub fn evaluate_sleep_score(ctx: &EvalContext, records: &Vec<EncryptedRecord>) -> (r: Ct8)
    requires
        recs_wf(records@, *ctx),
    ensures
        r.pt() == sleep_score(rec_pts(records@)),
        r.cx() == ctx.id(),
{
    let ghost pts: Seq<(u8, u16, u16)> = rec_pts(records@);
    let mut stages: Vec<u8> = Vec::new();
    stages.push(0);
    stages.push(1);
    stages.push(2);
    stages.push(3);
    stages.push(4);
    stages.push(5);

    let total_durations = compute_total_duration_per_stage(ctx, records, &stages);
    let (total_sleep_time, total_in_bed_time) = compute_sleep_time_from_durations(
        ctx,
        &total_durations,
    );
    proof {
        lemma_table_folds6(table_pts(total_durations@));
        lemma_stage_total_bound(pts, 0);
        lemma_stage_total_bound(pts, 1);
        assert(total_sleep_time.pt() == total_sleep_time_of(pts));
        assert(total_in_bed_time.pt() == total_in_bed_time_of(pts));
        lemma_m10_ids();
    }
    let sleep_onset_latency = compute_sleep_onset_latency(ctx, records);

    let sleep_efficiency_category = evaluate_sleep_efficiency(
        ctx,
        &total_sleep_time,
        &total_in_bed_time,
    );
    let total_sleep_time_category = evaluate_total_sleep_time(ctx, &total_sleep_time);
    let sleep_onset_latency_category = evaluate_sleep_onset_latency(ctx, &sleep_onset_latency);

    let mut raw_score = trivial8(ctx, 0);
    raw_score = add8(ctx, &raw_score, &sleep_onset_latency_category);
    raw_score = add8(ctx, &raw_score, &total_sleep_time_category);
    raw_score = add8(ctx, &raw_score, &sleep_efficiency_category);

    let multiplier = trivial8(ctx, 4);
    let max_possible = trivial8(ctx, 9);
    let scaled = mul8(ctx, &raw_score, &multiplier);
    let quotient = div8(ctx, &scaled, &max_possible);
    add8_scalar(ctx, &quotient, 1)
}

/// Both 10-bit totals are in range, so reducing them again changes
/// nothing: the bridge between the table folds and the spec totals.
proof fn lemma_m10_ids()
    ensures
        forall|x: int| 0 <= x < 1024 ==> m10(x) == x,
{
}

/// The sleep-time and latency buckets always land in 0..3, and the
/// efficiency bucket in 0..4 (two of its indicators can hold at once only
/// when a wrapped product breaks the threshold order).
pub proof fn lemma_category_bounds(s: u16, t: u16, v: u16)
    ensures
        sleep_time_category(s) <= 3,
        latency_category(v) <= 3,
        efficiency_category(s, t) <= 4,
{
    reveal(efficiency_category);
}

/// The final score is always in the nominal range: for every record
/// sequence, the decrypted score lies in 1..=5.
pub proof fn lemma_sleep_score_bounds(rs: Seq<(u8, u16, u16)>)
    ensures
        1 <= sleep_score(rs),
        sleep_score(rs) <= 5,
{
    let cl = latency_category(onset_latency(rs));
    let ct = sleep_time_category(total_sleep_time_of(rs));
    let ce = efficiency_category(total_sleep_time_of(rs), total_in_bed_time_of(rs));
    lemma_category_bounds(total_sleep_time_of(rs), total_in_bed_time_of(rs), onset_latency(rs));
    let raw = m8(m8(m8(0 + cl) + ct) + ce);
    assert(raw <= 10);
    let scaled = m8(raw * 4);
    assert(scaled == raw * 4);
    assert(scaled / 9 <= 4);
    assert(sleep_score(rs) == m8(scaled / 9 + 1));
}

/// One decoded field of the flat record stream, in wire order: a record is
/// the three consecutive fields stage, slot start, slot end.
pub enum RecordField {
    Stage(Ct4),
    Slot(Ct10),
}

impl RecordField {
    /// The field belongs to the given context and fits its width.
    pub open spec fn wf(self, ctx: EvalContext) -> bool {
        match self {
            RecordField::Stage(s) => s.cx() == ctx.id() && s.inv(),
            RecordField::Slot(c) => c.cx() == ctx.id() && c.inv(),
        }
    }
}

/// The field at position `i` has the kind its position asks for: a stage
/// at every third position, a slot elsewhere.
pub open spec fn shape_ok(fs: Seq<RecordField>, i: int) -> bool {
    if i % 3 == 0 {
        fs[i] is Stage
    } else {
        fs[i] is Slot
    }
}

/// The flat stream parses into records: its length is a multiple of the
/// per-record field count, and the fields repeat stage, start, end.
pub open spec fn well_shaped(fs: Seq<RecordField>) -> bool {
    &&& fs.len() % 3 == 0
    &&& forall|i: int| 0 <= i < fs.len() ==> #[trigger] shape_ok(fs, i)
}

/// The plaintext triple of the `k`-th record of a well-shaped stream.
pub open spec fn record_at(fs: Seq<RecordField>, k: int) -> (u8, u16, u16) {
    (fs[3 * k]->Stage_0.pt(), fs[3 * k + 1]->Slot_0.pt(), fs[3 * k + 2]->Slot_0.pt())
}

/// Groups the flat field stream into records, three fields each, in
/// order. A stream whose length is not a multiple of the field count, or
/// whose fields do not follow the stage/start/end pattern, is a
/// precondition violation and is rejected before any homomorphic work.
pub fn reshape_into_encrypted_records(ctx: &EvalContext, fields: Vec<RecordField>) -> (r: Result<
    Vec<EncryptedRecord>,
    CircuitError,
>)
    requires
        forall|i: int| 0 <= i < fields@.len() ==> (#[trigger] fields@[i]).wf(*ctx),
    ensures
        r is Ok <==> well_shaped(fields@),
        r is Err ==> r == Err::<Vec<EncryptedRecord>, CircuitError>(CircuitError::MalformedRecords),
        r matches Ok(v) ==> {
            &&& v@.len() == fields@.len() / 3
            &&& forall|k: int|
                0 <= k < v@.len() ==> (#[trigger] v@[k]).pt() == record_at(fields@, k) && v@[
                    k].wf(*ctx)
        },
{
    let ghost orig: Seq<RecordField> = fields@;
    if fields.len() % 3 != 0 {
        return Err(CircuitError::MalformedRecords);
    }
    let mut rest = fields;
    let mut out: Vec<EncryptedRecord> = Vec::new();
    while rest.len() >= 3
        invariant
            orig == fields@,
            forall|i: int| 0 <= i < orig.len() ==> (#[trigger] orig[i]).wf(*ctx),
            orig.len() % 3 == 0,
            out@.len() * 3 + rest@.len() == orig.len(),
            rest@ == orig.skip(3 * out@.len() as int),
            forall|i: int| 0 <= i < 3 * out@.len() ==> #[trigger] shape_ok(orig, i),
            forall|k: int|
                0 <= k < out@.len() ==> (#[trigger] out@[k]).pt() == record_at(orig, k) && out@[
                    k].wf(*ctx),
        decreases rest@.len(),
    {
        let ghost k: int = out@.len() as int;
        let f0 = rest.remove(0);
        let ghost rest1 = rest@;
        let f1 = rest.remove(0);
        let ghost rest2 = rest@;
        let f2 = rest.remove(0);
        proof {
            assert(rest1 =~= orig.skip(3 * k + 1));
            assert(rest2 =~= orig.skip(3 * k + 2));
            assert(rest@ =~= orig.skip(3 * k + 3));
            assert(f0 == orig[3 * k] && f1 == orig[3 * k + 1] && f2 == orig[3 * k + 2]);
        }
        match (f0, f1, f2) {
            (RecordField::Stage(stage_id), RecordField::Slot(slot_start), RecordField::Slot(
                slot_end,
            )) => {
                proof {
                    assert(shape_ok(orig, 3 * k) && shape_ok(orig, 3 * k + 1) && shape_ok(
                        orig,
                        3 * k + 2,
                    ));
                    assert forall|i: int| 0 <= i < 3 * (k + 1) implies #[trigger] shape_ok(
                        orig,
                        i,
                    ) by {
                        if i < 3 * k {
                            assert(shape_ok(orig, i));
                        }
                    }
                }
                out.push(EncryptedRecord { stage_id, slot_start, slot_end });
            },
            _ => {
                proof {
                    if !(f0 is Stage) {
                        assert(!shape_ok(orig, 3 * k));
                    } else if !(f1 is Slot) {
                        assert(!shape_ok(orig, 3 * k + 1));
                    } else {
                        assert(!shape_ok(orig, 3 * k + 2));
                    }
                    assert(!well_shaped(orig));
                }
                return Err(CircuitError::MalformedRecords);
            },
        }
    }
    proof {
        assert(rest@.len() == 0);
        assert(3 * out@.len() == orig.len());
        assert(well_shaped(orig));
    }
    Ok(out)
}

/// Encrypts plaintext sleep records under the client key, field by field,
/// as the driver does before an evaluation. The caller must pair the
/// client key with the given context's evaluation key.
pub fn encrypt_brut_data(
    clear_data: &Vec<(u8, u16, u16)>,
    client_key: &tfhe::ClientKey,
    ctx: &EvalContext,
) -> (r: Vec<EncryptedRecord>)
    ensures
        r@.len() == clear_data@.len(),
        forall|i: int|
            0 <= i < r@.len() ==> {
                &&& (#[trigger] r@[i]).pt() == (
                    m4(clear_data@[i].0 as int),
                    m10(clear_data@[i].1 as int),
                    m10(clear_data@[i].2 as int),
                )
                &&& r@[i].wf(*ctx)
            },
{
    let mut records: Vec<EncryptedRecord> = Vec::new();
    let mut i: usize = 0;
    while i < clear_data.len()
        invariant
            0 <= i <= clear_data@.len(),
            records@.len() == i,
            forall|j: int|
                0 <= j < i ==> {
                    &&& (#[trigger] records@[j]).pt() == (
                        m4(clear_data@[j].0 as int),
                        m10(clear_data@[j].1 as int),
                        m10(clear_data@[j].2 as int),
                    )
                    &&& records@[j].wf(*ctx)
                },
        decreases clear_data@.len() - i,
    {
        let (stage_id, slot_start, slot_end) = clear_data[i];
        records.push(
            EncryptedRecord {
                stage_id: encrypt4(client_key, ctx, stage_id),
                slot_start: encrypt10(client_key, ctx, slot_start),
                slot_end: encrypt10(client_key, ctx, slot_end),
            },
        );
        i = i + 1;
    }
    records
}

/// Reference per-stage duration total on plaintext records, for checking
/// the masked accumulation against.
pub fn clear_stage_total(records: &Vec<(u8, u16, u16)>, sid: u8) -> (r: u16)
    requires
        recs_valid(records@),
    ensures
        r == stage_total(records@, sid),
        r < 1024,
{
    let mut total: u16 = 0;
    let mut i: usize = 0;
    assert(records@.take(0) =~= Seq::<(u8, u16, u16)>::empty());
    while i < records.len()
        invariant
            0 <= i <= records@.len(),
            recs_valid(records@),
            total == stage_total(records@.take(i as int), sid),
            total < 1024,
        decreases records@.len() - i,
    {
        proof {
            assert(records@.take(i + 1).drop_last() =~= records@.take(i as int));
            assert(records@.take(i + 1).last() == records@[i as int]);
            assert(rec_valid(records@[i as int]));
        }
        let (stage, start, end) = records[i];
        if stage == sid {
            let dur: u16 = (((end as u32) + 1024 - (start as u32)) % 1024) as u16;
            proof {
                vstd::arithmetic::div_mod::lemma_mod_multiples_vanish(
                    1,
                    end - start,
                    1024,
                );
            }
            assert(dur == m10(end - start));
            total = (((total as u32) + (dur as u32)) % 1024) as u16;
        }
        i = i + 1;
    }
    proof {
        assert(records@.take(i as int) =~= records@);
    }
    total
}

/// Reference first-occurrence search on plaintext records: the slot start
/// of the first record matching the predicate, 0 when none matches.
pub fn clear_first_match_start(records: &Vec<(u8, u16, u16)>, in_bed: bool) -> (r: u16)
    ensures
        r == first_match_start(records@, in_bed),
{
    let mut found = false;
    let mut time: u16 = 0;
    let mut i: usize = 0;
    assert(records@.take(0) =~= Seq::<(u8, u16, u16)>::empty());
    while i < records.len()
        invariant
            0 <= i <= records@.len(),
            found == has_match(records@.take(i as int), in_bed),
            time == first_match_start(records@.take(i as int), in_bed),
        decreases records@.len() - i,
    {
        proof {
            assert(records@.take(i + 1).drop_last() =~= records@.take(i as int));
            assert(records@.take(i + 1).last() == records@[i as int]);
            if !has_match(records@.take(i as int), in_bed) {
                lemma_first_match_none(records@.take(i as int), in_bed);
            }
        }
        let (stage, start, _end) = records[i];
        let matches_here = (stage == 0) == in_bed;
        if !found && matches_here {
            time = start;
        }
        found = found || matches_here;
        proof {
            if has_match(records@.take(i as int), in_bed) {
                assert(has_match(records@.take(i + 1), in_bed));
            }
            assert(stage_matches(records@[i as int], in_bed) == matches_here);
        }
        i = i + 1;
    }
    proof {
        assert(records@.take(i as int) =~= records@);
    }
    time
}

/// Reference sleep-time bucketing on a plaintext total.
pub fn clear_sleep_time_category(t: u16) -> (r: u8)
    ensures
        r == sleep_time_category(t),
{
    if t > 420 {
        0
    } else if t > 360 {
        1
    } else if t > 300 {
        2
    } else {
        3
    }
}

/// Reference latency bucketing on a plaintext latency.
pub fn clear_latency_category(v: u16) -> (r: u8)
    ensures
        r == latency_category(v),
{
    if v <= 15 {
        0
    } else if v <= 30 {
        1
    } else if v <= 60 {
        2
    } else {
        3
    }
}

/// Reference efficiency bucketing on plaintext totals, with the same
/// wrapped 16-bit products the circuit forms.
pub fn clear_efficiency_category(s: u16, t: u16) -> (r: u8)
    ensures
        r == efficiency_category(s, t),
{
    proof {
        reveal(efficiency_category);
    }
    let e: u16 = (((s as u32) * 100) % 0x1_0000) as u16;
    let t85: u16 = (((t as u32) * 85) % 0x1_0000) as u16;
    let t75: u16 = (((t as u32) * 75) % 0x1_0000) as u16;
    let t65: u16 = (((t as u32) * 65) % 0x1_0000) as u16;
    let mut c: u8 = 0;
    if e <= t85 && e > t75 {
        c = c + 1;
    }
    if e <= t75 && e > t65 {
        c = c + 2;
    }
    if e <= t65 {
        c = c + 3;
    }
    c
}

/// Reference evaluation of the whole sleep score on plaintext records: the
/// exact plaintext counterpart of [`evaluate_sleep_score`].
#[verifier::rlimit(50)]
pub fn clear_sleep_score(records: &Vec<(u8, u16, u16)>) -> (r: u8)
    requires
        recs_valid(records@),
    ensures
        r == sleep_score(records@),
{
    let d1 = clear_stage_total(records, 1);
    let d2 = clear_stage_total(records, 2);
    let d3 = clear_stage_total(records, 3);
    let d4 = clear_stage_total(records, 4);
    let d5 = clear_stage_total(records, 5);
    let total_in_bed_time = clear_stage_total(records, 0);
    let mut total_sleep_time: u16 = ((0u32 + (d1 as u32)) % 1024) as u16;
    total_sleep_time = (((total_sleep_time as u32) + (d2 as u32)) % 1024) as u16;
    total_sleep_time = (((total_sleep_time as u32) + (d3 as u32)) % 1024) as u16;
    total_sleep_time = (((total_sleep_time as u32) + (d4 as u32)) % 1024) as u16;
    total_sleep_time = (((total_sleep_time as u32) + (d5 as u32)) % 1024) as u16;
    assert(total_sleep_time == total_sleep_time_of(records@));

    let first_sleep = clear_first_match_start(records, false);
    let first_in_bed = clear_first_match_start(records, true);
    proof {
        lemma_first_match_bound(records@, false);
        lemma_first_match_bound(records@, true);
        vstd::arithmetic::div_mod::lemma_mod_multiples_vanish(
            1,
            first_sleep - first_in_bed,
            1024,
        );
    }
    let latency: u16 = (((first_sleep as u32) + 1024 - (first_in_bed as u32)) % 1024) as u16;
    assert(latency == onset_latency(records@));

    let cat_lat = clear_latency_category(latency);
    let cat_time = clear_sleep_time_category(total_sleep_time);
    let cat_eff = clear_efficiency_category(total_sleep_time, total_in_bed_time);
    proof {
        lemma_category_bounds(total_sleep_time, total_in_bed_time, latency);
    }
    let raw: u8 = cat_lat + cat_time + cat_eff;
    let score: u8 = (raw * 4) / 9 + 1;
    assert(score == sleep_score(records@));
    score
}

/// First-occurrence search finds the first match: when some record
/// matches, the fold's value is the slot start of the earliest matching
/// record; with no match it is 0.
pub proof fn lemma_first_occurrence(rs: Seq<(u8, u16, u16)>, in_bed: bool)
    ensures
        has_match(rs, in_bed) ==> exists|j: int|
            {
                &&& 0 <= j < rs.len()
                &&& stage_matches(#[trigger] rs[j], in_bed)
                &&& first_match_start(rs, in_bed) == rs[j].1
                &&& forall|k: int| 0 <= k < j ==> !stage_matches(#[trigger] rs[k], in_bed)
            },
        !has_match(rs, in_bed) ==> first_match_start(rs, in_bed) == 0,
    decreases rs.len(),
{
    if !has_match(rs, in_bed) {
        lemma_first_match_none(rs, in_bed);
    } else if rs.len() > 0 {
        let head = rs.drop_last();
        assert(forall|k: int| 0 <= k < rs.len() - 1 ==> head[k] == #[trigger] rs[k]);
        lemma_first_occurrence(head, in_bed);
        if has_match(head, in_bed) {
            let j = choose|j: int|
                {
                    &&& 0 <= j < head.len()
                    &&& stage_matches(#[trigger] head[j], in_bed)
                    &&& first_match_start(head, in_bed) == head[j].1
                    &&& forall|k: int| 0 <= k < j ==> !stage_matches(#[trigger] head[k], in_bed)
                };
            assert(stage_matches(rs[j], in_bed) && first_match_start(rs, in_bed) == rs[j].1);
        } else {
            let j = rs.len() - 1;
            assert(stage_matches(rs[j], in_bed)) by {
                assert(exists|i: int| 0 <= i < rs.len() && stage_matches(#[trigger] rs[i], in_bed));
                let w = choose|i: int|
                    0 <= i < rs.len() && stage_matches(#[trigger] rs[i], in_bed);
                if w < j {
                    assert(stage_matches(head[w], in_bed));
                }
            }
            assert(first_match_start(rs, in_bed) == rs[j].1);
            assert(forall|k: int| 0 <= k < j ==> !stage_matches(#[trigger] rs[k], in_bed)) by {
                assert(forall|k: int|
                    0 <= k < head.len() ==> !stage_matches(#[trigger] head[k], in_bed));
            }
        }
    }
}

} // verus!
