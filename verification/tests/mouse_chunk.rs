use k04_firmware::mouse_chunk::{chunks_needed, take_even_chunk, take_vector_chunk};

fn drain(mut x: i32, mut y: i32) -> (Vec<(i8, i8)>, i32, i32) {
    let source_x = x;
    let source_y = y;
    let mut chunks = Vec::new();
    while x != 0 || y != 0 {
        let mut wheel = 0;
        let mut pan = 0;
        let (chunk_x, chunk_y, _, _) = take_vector_chunk(&mut x, &mut y, &mut wheel, &mut pan);
        chunks.push((chunk_x, chunk_y));
    }
    let total_x = chunks.iter().map(|(x, _)| i32::from(*x)).sum();
    let total_y = chunks.iter().map(|(_, y)| i32::from(*y)).sum();
    assert_eq!((total_x, total_y), (source_x, source_y));
    (chunks, x, y)
}

#[test]
fn asymmetric_vector_keeps_the_same_direction() {
    let (chunks, x, y) = drain(-250, 20);
    assert_eq!(chunks, vec![(-125, 10), (-125, 10)]);
    assert_eq!((x, y), (0, 0));
}

#[test]
fn all_quadrants_are_distributed_without_loss() {
    for (x, y) in [(300, 90), (300, -90), (-300, 90), (-300, -90)] {
        let (chunks, residual_x, residual_y) = drain(x, y);
        assert_eq!(chunks.len(), 3);
        assert_eq!((residual_x, residual_y), (0, 0));
    }
}

#[test]
fn signed_hid_limits_fit_in_one_report() {
    let (chunks, _, _) = drain(127, -128);
    assert_eq!(chunks, vec![(127, -128)]);
}

#[test]
fn large_values_terminate_and_preserve_exact_sum() {
    let (chunks, _, _) = drain(32_000, -32_000);
    assert_eq!(chunks.len(), 252);
}

#[test]
fn chunk_counts_follow_the_signed_limits() {
    assert_eq!(chunks_needed(0), 0);
    assert_eq!(chunks_needed(127), 1);
    assert_eq!(chunks_needed(128), 2);
    assert_eq!(chunks_needed(-128), 1);
    assert_eq!(chunks_needed(-129), 2);
    assert_eq!(chunks_needed(i32::MIN), 16_777_216);
    assert_eq!(chunks_needed(i32::MAX), 16_909_321);
}

#[test]
fn even_chunks_round_halves_away_from_zero() {
    let mut value = 5;
    assert_eq!(take_even_chunk(&mut value, 2), 3);
    assert_eq!(value, 2);
    let mut value = -5;
    assert_eq!(take_even_chunk(&mut value, 2), -3);
    assert_eq!(value, -2);
    let mut value = 1_000;
    assert_eq!(take_even_chunk(&mut value, 1), 127);
    assert_eq!(value, 873);
}

#[test]
fn every_component_shares_the_dominant_count() {
    let (mut x, mut y, mut wheel, mut pan) = (0, 0, 254, 3);
    assert_eq!(take_vector_chunk(&mut x, &mut y, &mut wheel, &mut pan), (0, 0, 127, 2));
    assert_eq!((x, y, wheel, pan), (0, 0, 127, 1));
    assert_eq!(take_vector_chunk(&mut x, &mut y, &mut wheel, &mut pan), (0, 0, 127, 1));
    assert_eq!((x, y, wheel, pan), (0, 0, 0, 0));
}
