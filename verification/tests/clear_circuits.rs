use fhe_circuits::aggregate::clear_aggregate_stats;
use fhe_circuits::offset::clear_offset;
use fhe_circuits::CircuitError;

#[test]
fn offset_circuit_on_known_value() {
    assert_eq!(clear_offset(1234, 42), 1276);
}

#[test]
fn offset_circuit_wraps_at_width() {
    assert_eq!(clear_offset(65535, 1), 0);
    assert_eq!(clear_offset(65500, 100), 64);
    assert_eq!(clear_offset(0, 0), 0);
}

#[test]
fn aggregate_stats_on_scaled_weights() {
    let values: Vec<u16> = vec![680, 650, 690, 700, 705];
    let (mn, mx, mean) = clear_aggregate_stats(&values).unwrap();
    assert_eq!(mn, 650);
    assert_eq!(mx, 705);
    assert_eq!(mean, 685);
}

#[test]
fn aggregate_stats_on_single_value() {
    let values: Vec<u16> = vec![77];
    assert_eq!(clear_aggregate_stats(&values).unwrap(), (77, 77, 77));
}

#[test]
fn aggregate_stats_sum_wraps_at_width() {
    // 40000 + 40000 leaves the 16-bit range: the circuit's sum wraps to
    // 14464 and the mean is taken of the wrapped sum.
    let values: Vec<u16> = vec![40000, 40000];
    assert_eq!(clear_aggregate_stats(&values).unwrap(), (40000, 40000, 7232));
}

#[test]
fn aggregate_matches_plain_statistics_when_sum_fits() {
    let sets: Vec<Vec<u16>> = vec![
        vec![1],
        vec![3, 1, 2],
        vec![65535],
        vec![0, 0, 0, 7],
        vec![1000, 2000, 500, 1500, 999, 1],
    ];
    for values in &sets {
        let (mn, mx, mean) = clear_aggregate_stats(values).unwrap();
        let sum: u32 = values.iter().map(|&v| v as u32).sum();
        assert!(sum <= u16::MAX as u32);
        assert_eq!(mn, *values.iter().min().unwrap());
        assert_eq!(mx, *values.iter().max().unwrap());
        assert_eq!(mean as u32, sum / values.len() as u32);
    }
}

#[test]
fn aggregate_stats_rejects_empty_input() {
    let values: Vec<u16> = Vec::new();
    assert_eq!(clear_aggregate_stats(&values), Err(CircuitError::EmptyInput));
}
