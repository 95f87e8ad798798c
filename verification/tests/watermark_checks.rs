use fhe_circuits::watermark::{
    clear_detect, CONTEXT_LEN, HASH_KEY_0, HASH_KEY_1, HASH_KEY_2, KEY_COUNT, LCG_INC, LCG_MULT,
    SCORE_SCALE, THRESHOLD_DENOM, THRESHOLD_NUM,
};

fn lcg(seed: u64, data: &[u64]) -> u64 {
    let mut acc = seed;
    for &x in data {
        acc = acc.wrapping_add(x).wrapping_mul(LCG_MULT).wrapping_add(LCG_INC);
    }
    acc
}

fn expected_outputs(tokens: &[u64]) -> (u64, u64, u64) {
    if tokens.len() <= CONTEXT_LEN {
        return (0, 0, 0);
    }
    let keys = [HASH_KEY_0, HASH_KEY_1, HASH_KEY_2];
    let windows = tokens.len() - CONTEXT_LEN;
    let mut total: u64 = 0;
    for i in 0..windows {
        let ch = lcg(keys[0], &tokens[i..i + CONTEXT_LEN]);
        for (l, &key) in keys.iter().enumerate() {
            let th = lcg(key, &[ch, tokens[i + CONTEXT_LEN], l as u64]);
            let sh = if l == 0 { th } else { th >> l };
            total = total.wrapping_add(sh & 1);
        }
    }
    let denom = (windows * KEY_COUNT) as u64;
    let flag = u64::from(total.wrapping_mul(THRESHOLD_DENOM) > denom.wrapping_mul(THRESHOLD_NUM));
    let score = total.wrapping_mul(SCORE_SCALE) / denom;
    (flag, score, total)
}

#[test]
fn zero_window_fallback_is_all_zero() {
    assert_eq!(clear_detect(&vec![]), (0, 0, 0));
    assert_eq!(clear_detect(&vec![42]), (0, 0, 0));
    assert_eq!(clear_detect(&vec![1, 2]), (0, 0, 0));
    assert_eq!(clear_detect(&vec![1, 2, 3]), (0, 0, 0));
}

#[test]
fn single_window_matches_hand_rolled_hash() {
    let tokens: Vec<u64> = vec![5, 6, 7, 8];
    assert_eq!(clear_detect(&tokens), expected_outputs(&tokens));
}

#[test]
fn longer_sequences_stay_consistent() {
    let token_sets: Vec<Vec<u64>> = vec![
        vec![0, 0, 0, 0],
        vec![u64::MAX, u64::MAX, u64::MAX, u64::MAX, u64::MAX],
        vec![1, 2, 3, 4, 5, 6, 7],
        vec![981273, 5, 0, 77, 123456789, 42],
    ];
    for tokens in &token_sets {
        let (flag, score, total) = clear_detect(tokens);
        assert_eq!((flag, score, total), expected_outputs(tokens));
        let windows = (tokens.len() - CONTEXT_LEN) as u64;
        assert!(total <= KEY_COUNT as u64 * windows);
        let denom = windows * KEY_COUNT as u64;
        assert_eq!(flag, u64::from(total * THRESHOLD_DENOM > denom * THRESHOLD_NUM));
        assert_eq!(score, total * SCORE_SCALE / denom);
    }
}

#[test]
fn detection_is_deterministic() {
    let tokens: Vec<u64> = vec![11, 22, 33, 44, 55];
    assert_eq!(clear_detect(&tokens), clear_detect(&tokens));
}
