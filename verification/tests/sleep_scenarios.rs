use fhe_circuits::sleep::{
    clear_efficiency_category, clear_first_match_start, clear_latency_category,
    clear_sleep_score, clear_sleep_time_category, clear_stage_total,
};

#[test]
fn good_night_stage_totals() {
    let records: Vec<(u8, u16, u16)> = vec![(3, 0, 150), (4, 150, 710), (5, 710, 800)];
    assert_eq!(clear_stage_total(&records, 3), 150);
    assert_eq!(clear_stage_total(&records, 4), 560);
    assert_eq!(clear_stage_total(&records, 5), 90);
    assert_eq!(clear_stage_total(&records, 0), 0);
    assert_eq!(clear_stage_total(&records, 1), 0);
    assert_eq!(clear_stage_total(&records, 2), 0);
}

#[test]
fn good_night_scores_top() {
    // Total sleep 800 min (over 7h, bucket 0), zero latency (bucket 0),
    // no in-bed time so every efficiency threshold is 0 and the bucket is
    // 0: raw 0, score 0 * 4 / 9 + 1 = 1.
    let records: Vec<(u8, u16, u16)> = vec![(3, 0, 150), (4, 150, 710), (5, 710, 800)];
    assert_eq!(clear_first_match_start(&records, false), 0);
    assert_eq!(clear_first_match_start(&records, true), 0);
    assert_eq!(clear_sleep_score(&records), 1);
}

#[test]
fn first_occurrence_takes_input_order() {
    let records: Vec<(u8, u16, u16)> = vec![(2, 100, 200), (0, 200, 300), (0, 300, 400)];
    assert_eq!(clear_first_match_start(&records, true), 200);
    assert_eq!(clear_first_match_start(&records, false), 100);
}

#[test]
fn first_occurrence_without_match_is_zero() {
    let all_in_bed: Vec<(u8, u16, u16)> = vec![(0, 10, 20), (0, 20, 30)];
    assert_eq!(clear_first_match_start(&all_in_bed, false), 0);
    let all_asleep: Vec<(u8, u16, u16)> = vec![(1, 10, 20), (5, 20, 30)];
    assert_eq!(clear_first_match_start(&all_asleep, true), 0);
    let empty: Vec<(u8, u16, u16)> = Vec::new();
    assert_eq!(clear_first_match_start(&empty, true), 0);
}

#[test]
fn malformed_slot_wraps_at_width() {
    // A record whose end precedes its start is well typed but malformed:
    // the circuit cannot see the values, so the duration wraps at the
    // 10-bit width, as documented: 100 - 500 wraps to 624.
    let records: Vec<(u8, u16, u16)> = vec![(1, 500, 100)];
    assert_eq!(clear_stage_total(&records, 1), 624);
    let score = clear_sleep_score(&records);
    assert!((1..=5).contains(&score));
}

#[test]
fn sleep_time_buckets_cover_the_whole_range() {
    let mut seen = [false; 4];
    for t in 0..1024u16 {
        let c = clear_sleep_time_category(t);
        assert!(c <= 3);
        seen[c as usize] = true;
    }
    assert_eq!(seen, [true; 4]);
    assert_eq!(clear_sleep_time_category(421), 0);
    assert_eq!(clear_sleep_time_category(420), 1);
    assert_eq!(clear_sleep_time_category(361), 1);
    assert_eq!(clear_sleep_time_category(360), 2);
    assert_eq!(clear_sleep_time_category(301), 2);
    assert_eq!(clear_sleep_time_category(300), 3);
    assert_eq!(clear_sleep_time_category(0), 3);
}

#[test]
fn latency_buckets_cover_the_whole_range() {
    let mut seen = [false; 4];
    for v in 0..1024u16 {
        let c = clear_latency_category(v);
        assert!(c <= 3);
        seen[c as usize] = true;
    }
    assert_eq!(seen, [true; 4]);
    assert_eq!(clear_latency_category(15), 0);
    assert_eq!(clear_latency_category(16), 1);
    assert_eq!(clear_latency_category(30), 1);
    assert_eq!(clear_latency_category(31), 2);
    assert_eq!(clear_latency_category(60), 2);
    assert_eq!(clear_latency_category(61), 3);
}

#[test]
fn efficiency_buckets_partition_while_products_fit() {
    // Up to 770 minutes in bed no threshold product wraps, and exactly
    // one indicator holds for every pair.
    for t in (0..=770u32).step_by(7) {
        for s in (0..1024u32).step_by(11) {
            let e = (s * 100) % 0x1_0000;
            let t85 = (t * 85) % 0x1_0000;
            let t75 = (t * 75) % 0x1_0000;
            let t65 = (t * 65) % 0x1_0000;
            let inds = [
                e > t85,
                e <= t85 && e > t75,
                e <= t75 && e > t65,
                e <= t65,
            ];
            assert_eq!(inds.iter().filter(|&&b| b).count(), 1);
            let expected: u8 =
                (inds[1] as u8) + 2 * (inds[2] as u8) + 3 * (inds[3] as u8);
            assert_eq!(clear_efficiency_category(s as u16, t as u16), expected);
        }
    }
}

#[test]
fn efficiency_boundaries() {
    assert_eq!(clear_efficiency_category(340, 400), 1);
    assert_eq!(clear_efficiency_category(341, 400), 0);
    assert_eq!(clear_efficiency_category(300, 400), 2);
    assert_eq!(clear_efficiency_category(260, 400), 3);
    assert_eq!(clear_efficiency_category(0, 0), 3);
    assert_eq!(clear_efficiency_category(1, 0), 0);
}

#[test]
fn efficiency_indicator_sum_beyond_wrap() {
    // At 900 minutes in bed the 85 and 75 thresholds wrap (to 10964 and
    // 1964) and fall out of order; for 50 minutes of sleep the product is
    // 5000, so the first and last indicators hold at once and the
    // indicator sum reaches 4. The final score still stays in range.
    assert_eq!(clear_efficiency_category(50, 900), 4);
    let records: Vec<(u8, u16, u16)> = vec![(0, 0, 900), (1, 900, 950)];
    assert_eq!(clear_sleep_score(&records), 5);
}

#[test]
fn score_stays_in_nominal_range() {
    let record_sets: Vec<Vec<(u8, u16, u16)>> = vec![
        vec![],
        vec![(0, 0, 1023)],
        vec![(0, 0, 60), (1, 60, 500)],
        vec![(2, 0, 10), (0, 10, 400), (3, 400, 900)],
        vec![(1, 500, 100)],
        vec![(0, 900, 100), (5, 100, 900)],
        vec![(0, 0, 100), (1, 100, 130), (0, 130, 200), (4, 200, 800)],
    ];
    for records in &record_sets {
        let score = clear_sleep_score(records);
        assert!((1..=5).contains(&score));
    }
}

#[test]
fn restless_night_gets_worst_score() {
    // In bed from 0, asleep only from 600 to 700: 100 min of sleep
    // (bucket 3), latency 600 (bucket 3), efficiency 10000 against
    // thresholds 51000/45000/39000 (bucket 3): raw 9, score 36/9 + 1 = 5.
    let records: Vec<(u8, u16, u16)> = vec![(0, 0, 600), (3, 600, 700)];
    assert_eq!(clear_stage_total(&records, 0), 600);
    assert_eq!(clear_stage_total(&records, 3), 100);
    assert_eq!(clear_first_match_start(&records, true), 0);
    assert_eq!(clear_first_match_start(&records, false), 600);
    assert_eq!(clear_sleep_score(&records), 5);
}
