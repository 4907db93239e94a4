use stone_model::layout::{diagonal, entry_offset};
use stone_model::memory::{
    AbstractCpu4, AbstractMemoryRecorder, ClampPolicy, DynamicWeights,
    PontineWeightMemoryRecorder,
};

#[test]
fn offsets_are_column_major() {
    assert_eq!(entry_offset(0, 0, 16, 16), 0);
    assert_eq!(entry_offset(3, 0, 16, 16), 3);
    assert_eq!(entry_offset(0, 1, 16, 16), 16);
    assert_eq!(entry_offset(5, 2, 14, 8), 33);
    assert_eq!(entry_offset(1, 13, 2, 14), 27);
    assert_eq!(entry_offset(15, 15, 16, 16), 255);
}

#[test]
fn diagonal_of_a_square_matrix() {
    // Columns (1, 2, 3), (4, 5, 6), (7, 8, 9).
    let matrix = vec![1, 2, 3, 4, 5, 6, 7, 8, 9];
    assert_eq!(diagonal(&matrix, 3), vec![1, 5, 9]);
    assert_eq!(diagonal(&Vec::<u8>::new(), 0), Vec::<u8>::new());
    assert_eq!(diagonal(&vec![42], 1), vec![42]);
}

fn scale(initial: f32, connectivity: f32) -> f32 {
    initial * connectivity
}

/// The logistic law with gain 0.5.
fn logistic(w: f32, r: f32) -> f32 {
    0.5 * r * w * (1.0 - w)
}

/// The affine law with beta 0.375.
fn affine(_w: f32, r: f32) -> f32 {
    0.0025 * (-(0.125 + 0.375) + r)
}

/// One forward Euler step of unit length.
fn euler(w: f32, c: f32, change: f32) -> f32 {
    w + c * change
}

fn unit(w: f32) -> f32 {
    w.clamp(0.0, 1.0)
}

fn mask_2x3() -> Vec<Option<f32>> {
    // Two rows, three columns, column by column.
    vec![Some(1.0), None, None, Some(1.0), Some(1.0), Some(1.0)]
}

#[test]
fn new_weights_follow_the_mask() {
    let weights = DynamicWeights::new(2, 3, mask_2x3(), &vec![0.5; 6], 0.0, ClampPolicy::Clamped, scale);
    assert_eq!(weights.to, 2);
    assert_eq!(weights.from, 3);
    assert_eq!(weights.rest, 0.0);
    assert_eq!(weights.connectivity, mask_2x3());
    assert_eq!(weights.matrix(), &vec![0.5, 0.0, 0.0, 0.5, 0.5, 0.5]);
}

#[test]
fn new_weights_scale_by_connectivity() {
    let mask = vec![Some(2.0), None, Some(0.5), Some(1.0)];
    let weights = DynamicWeights::new(
        2,
        2,
        mask,
        &vec![0.25, 0.25, 0.5, 0.75],
        -1.0,
        ClampPolicy::Unclamped,
        scale,
    );
    assert_eq!(weights.policy, ClampPolicy::Unclamped);
    assert_eq!(weights.matrix(), &vec![0.5, -1.0, 0.25, 0.75]);
}

#[test]
fn update_steps_each_synapse_with_the_rate_of_its_column() {
    let mut weights = DynamicWeights::new(2, 3, mask_2x3(), &vec![0.5; 6], 0.0, ClampPolicy::Clamped, scale);
    let input = vec![1.0f32, 0.0, 0.5];
    weights.update(&input, logistic, euler, unit);
    // Column 0 sees rate 1, column 1 rate 0, column 2 rate 0.5.
    assert_eq!(
        weights.matrix(),
        &vec![0.5 + 0.5 * 1.0 * 0.25, 0.0, 0.0, 0.5, 0.5 + 0.5 * 0.5 * 0.25, 0.5 + 0.5 * 0.5 * 0.25]
    );
    assert_eq!(weights.connectivity, mask_2x3());
}

#[test]
fn update_hands_over_weight_rate_connectivity_and_change() {
    let mask = vec![Some(7i64), Some(8), None, Some(9)];
    let mut weights = DynamicWeights::new(
        2,
        2,
        mask.clone(),
        &vec![1, 2, 3, 4],
        0,
        ClampPolicy::Unclamped,
        |w: i64, _c: i64| w,
    );
    let law = |w: i64, r: i64| w * 100 + r;
    let step = |w: i64, c: i64, change: i64| w * 1_000_000 + c * 10_000 + change;
    weights.update(&vec![50, 60], law, step, |w: i64| -w);
    assert_eq!(weights.matrix(), &vec![1_070_150, 2_080_250, 0, 4_090_460]);

    let mut clamped =
        DynamicWeights::new(2, 2, mask, &vec![1, 2, 3, 4], 0, ClampPolicy::Clamped, |w: i64, _c: i64| w);
    clamped.update(&vec![50, 60], law, step, |w: i64| -w);
    assert_eq!(clamped.matrix(), &vec![-1_070_150, -2_080_250, 0, -4_090_460]);
}

#[test]
fn affine_law_value() {
    let mut weights = DynamicWeights::new(
        1,
        1,
        vec![Some(1.0)],
        &vec![0.5f32],
        0.0,
        ClampPolicy::Clamped,
        scale,
    );
    weights.update(&vec![1.0], affine, euler, unit);
    assert_eq!(weights.matrix()[0], 0.5 + 0.0025 * (-(0.125 + 0.375) + 1.0));
}

#[test]
fn weights_stay_clamped_and_masked() {
    let n = 16;
    let mut mask = Vec::new();
    for col in 0..n {
        for row in 0..n {
            mask.push(if row == col || row == (col + 1) % n { Some(1.0f32) } else { None });
        }
    }
    let mut weights = DynamicWeights::new(
        n,
        n,
        mask.clone(),
        &vec![0.9; n * n],
        0.0,
        ClampPolicy::Clamped,
        scale,
    );
    let input: Vec<f32> = (0..n).map(|i| (i as f32) * 0.3).collect();
    for _ in 0..500 {
        weights.update(&input, logistic, euler, unit);
        for (k, w) in weights.matrix().iter().enumerate() {
            match mask[k] {
                Some(_) => assert!(*w >= 0.0 && *w <= 1.0),
                None => assert_eq!(*w, 0.0),
            }
        }
    }
    // Driven synapses have saturated; undriven ones have not moved.
    assert_eq!(weights.matrix()[entry_offset(15, 15, n, n)], 1.0);
    assert_eq!(weights.matrix()[entry_offset(0, 0, n, n)], 0.9);
}

#[test]
fn unclamped_weights_may_leave_the_unit_interval() {
    let build = |policy: ClampPolicy| {
        DynamicWeights::new(1, 2, vec![Some(1.0f32), None], &vec![0.9, 0.9], 0.0, policy, scale)
    };
    let mut free = build(ClampPolicy::Unclamped);
    let mut held = build(ClampPolicy::Clamped);
    // A law with a strong constant drive grows without bound.
    let drive = |_w: f32, r: f32| 0.25 * r;
    for _ in 0..4 {
        free.update(&vec![1.0, 1.0], drive, euler, unit);
        held.update(&vec![1.0, 1.0], drive, euler, unit);
    }
    assert_eq!(free.matrix(), &vec![1.9, 0.0]);
    assert_eq!(held.matrix(), &vec![1.0, 0.0]);
}

#[test]
fn pontine_recorder_reads_the_diagonal() {
    let mask: Vec<Option<i32>> = (0..9).map(|_| Some(1)).collect();
    let initial: Vec<i32> = (10..19).collect();
    let weights = DynamicWeights::new(
        3,
        3,
        mask,
        &initial,
        0,
        ClampPolicy::Clamped,
        |w: i32, c: i32| w * c,
    );
    assert_eq!(PontineWeightMemoryRecorder::record(&weights), vec![10, 14, 18]);
}

#[test]
fn accumulator_starts_flat() {
    let layer = AbstractCpu4::new(16, 0.5f32);
    assert_eq!(layer.memory, vec![0.5f32; 16]);
    assert!(AbstractCpu4::new(0, 0.5f32).memory.is_empty());
}

#[test]
fn accumulator_folds_input_into_memory() {
    let mut layer = AbstractCpu4::new(4, 0.5f32);
    let leak = |memory: f32, input: f32| {
        (memory + (input.clamp(0.0, 1.0) - 0.125) * (0.005 * 0.5)).clamp(0.0, 1.0)
    };
    layer.accumulate(&vec![1.0, 0.0, 2.0, 0.125], leak);
    assert_eq!(
        layer.memory,
        vec![
            0.5 + 0.875 * 0.0025,
            0.5 - 0.125 * 0.0025,
            0.5 + 0.875 * 0.0025,
            0.5,
        ]
    );
    assert_eq!(AbstractMemoryRecorder::record(&layer), layer.memory);
}

#[test]
fn accumulator_pairs_memory_with_input() {
    let mut layer = AbstractCpu4 { memory: vec![1i64, 2, 3] };
    layer.accumulate(&vec![10, 20, 30], |m: i64, x: i64| m * 100 + x);
    assert_eq!(layer.memory, vec![110, 220, 330]);
}
