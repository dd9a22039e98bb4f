use mania_core::HitResult;
use mania_core::HitScore;
use mania_core::ScoreAggregator;
use mania_core::lane::distance_to_hit_result;
use mania_core::score::points_for;

fn quality_rank(j: HitResult) -> u32 {
    match j {
        HitResult::NoHit => 0,
        HitResult::Miss => 0,
        HitResult::Hit50 => 1,
        HitResult::Hit100 => 2,
        HitResult::Hit300 => 3,
    }
}

#[test]
fn classify_bands_at_od_five() {
    // At overall difficulty 5.0 the windows are 50 / 100 / 150 ms.
    assert_eq!(distance_to_hit_result(50, 0), HitResult::Hit300);
    assert_eq!(distance_to_hit_result(50, 49), HitResult::Hit300);
    assert_eq!(distance_to_hit_result(50, 50), HitResult::Hit100);
    assert_eq!(distance_to_hit_result(50, 99), HitResult::Hit100);
    assert_eq!(distance_to_hit_result(50, 100), HitResult::Hit50);
    assert_eq!(distance_to_hit_result(50, 149), HitResult::Hit50);
    assert_eq!(distance_to_hit_result(50, 150), HitResult::Miss);
    assert_eq!(distance_to_hit_result(50, 100000), HitResult::Miss);
}

#[test]
fn classify_bands_at_od_zero_and_ten() {
    // Difficulty 0 widens the windows to 80 / 140 / 200 ms.
    assert_eq!(distance_to_hit_result(0, 79), HitResult::Hit300);
    assert_eq!(distance_to_hit_result(0, 80), HitResult::Hit100);
    assert_eq!(distance_to_hit_result(0, 139), HitResult::Hit100);
    assert_eq!(distance_to_hit_result(0, 140), HitResult::Hit50);
    assert_eq!(distance_to_hit_result(0, 199), HitResult::Hit50);
    assert_eq!(distance_to_hit_result(0, 200), HitResult::Miss);
    // Difficulty 10 narrows them to 20 / 60 / 100 ms.
    assert_eq!(distance_to_hit_result(100, 19), HitResult::Hit300);
    assert_eq!(distance_to_hit_result(100, 20), HitResult::Hit100);
    assert_eq!(distance_to_hit_result(100, 59), HitResult::Hit100);
    assert_eq!(distance_to_hit_result(100, 60), HitResult::Hit50);
    assert_eq!(distance_to_hit_result(100, 99), HitResult::Hit50);
    assert_eq!(distance_to_hit_result(100, 100), HitResult::Miss);
}

#[test]
fn classify_fractional_difficulty_is_exact() {
    // Difficulty 7.3: the best window is 50 + 30 * (5 - 7.3) / 5 = 36.2 ms.
    assert_eq!(distance_to_hit_result(73, 36), HitResult::Hit300);
    assert_eq!(distance_to_hit_result(73, 37), HitResult::Hit100);
}

#[test]
fn classify_out_of_scale_difficulty_widens() {
    // A difficulty of -5 is accepted and simply widens the best window
    // to 50 + 30 * 10 / 5 = 110 ms.
    assert_eq!(distance_to_hit_result(-50, 109), HitResult::Hit300);
    assert_eq!(distance_to_hit_result(-50, 110), HitResult::Hit100);
}

#[test]
fn classify_quality_never_improves_with_offset() {
    for od in [-50i32, 0, 35, 50, 73, 100, 150] {
        let mut previous = quality_rank(distance_to_hit_result(od, 0));
        for offset in 1..400u32 {
            let here = quality_rank(distance_to_hit_result(od, offset));
            assert!(here <= previous);
            previous = here;
        }
    }
}

#[test]
fn animator_midpoint_peak() {
    let mut hit_score = HitScore::new();
    assert_eq!(hit_score.sample_scale(), None);
    hit_score.play(HitResult::Hit300);
    hit_score.update(150);
    let (judgment, numerator, denominator) = hit_score.sample_scale().unwrap();
    assert_eq!(judgment, HitResult::Hit300);
    assert_eq!((numerator, denominator), (150, 150));
    assert_eq!(numerator as f32 / denominator as f32, 1.0);
    hit_score.update(150);
    assert_eq!(hit_score.sample_scale(), None);
}

#[test]
fn animator_scale_rises_then_falls() {
    let mut hit_score = HitScore::new();
    hit_score.play(HitResult::Hit50);
    // A fresh pulse starts at scale 0.
    let (_, numerator, denominator) = hit_score.sample_scale().unwrap();
    assert_eq!((numerator, denominator), (0, 150));
    hit_score.update(60);
    // 240 ms left: scale 60/150 = 0.4, still rising.
    let (_, numerator, _) = hit_score.sample_scale().unwrap();
    assert_eq!(numerator, 60);
    hit_score.update(120);
    // 120 ms left: past the peak, scale 120/150 = 0.8 and falling.
    let (_, numerator, _) = hit_score.sample_scale().unwrap();
    assert_eq!(numerator, 120);
    hit_score.update(119);
    // 1 ms left: nearly gone.
    let (_, numerator, _) = hit_score.sample_scale().unwrap();
    assert_eq!(numerator, 1);
    hit_score.update(1);
    assert_eq!(hit_score.sample_scale(), None);
}

#[test]
fn animator_new_trigger_replaces_in_flight() {
    let mut hit_score = HitScore::new();
    hit_score.play(HitResult::Hit50);
    hit_score.update(100);
    hit_score.play(HitResult::Miss);
    let (judgment, numerator, _) = hit_score.sample_scale().unwrap();
    assert_eq!(judgment, HitResult::Miss);
    // The countdown restarted from the full duration.
    assert_eq!(numerator, 0);
}

#[test]
fn animator_no_hit_is_no_op() {
    let mut hit_score = HitScore::new();
    hit_score.play(HitResult::NoHit);
    assert_eq!(hit_score.sample_scale(), None);
    hit_score.play(HitResult::Hit100);
    hit_score.update(50);
    hit_score.play(HitResult::NoHit);
    let (judgment, numerator, _) = hit_score.sample_scale().unwrap();
    assert_eq!(judgment, HitResult::Hit100);
    assert_eq!(numerator, 50);
}

#[test]
fn animator_zero_elapsed_skips_the_decrement() {
    let mut hit_score = HitScore::new();
    hit_score.play(HitResult::Hit300);
    hit_score.update(0);
    let (_, numerator, _) = hit_score.sample_scale().unwrap();
    assert_eq!(numerator, 0);
    // Idle update is a no-op too.
    let mut idle = HitScore::new();
    idle.update(50);
    assert_eq!(idle.sample_scale(), None);
}

#[test]
fn points_per_judgment() {
    assert_eq!(points_for(HitResult::NoHit), 0);
    assert_eq!(points_for(HitResult::Miss), 0);
    assert_eq!(points_for(HitResult::Hit50), 50);
    assert_eq!(points_for(HitResult::Hit100), 100);
    assert_eq!(points_for(HitResult::Hit300), 300);
}

#[test]
fn accumulate_sums_one_tick() {
    let mut aggregator = ScoreAggregator::new();
    let judgments = vec![HitResult::Hit300, HitResult::Hit100, HitResult::Miss, HitResult::NoHit];
    let delta = aggregator.accumulate(&judgments);
    assert_eq!(delta, 400);
    assert_eq!(aggregator.total, 400);
}

#[test]
fn accumulate_keeps_growing() {
    let mut aggregator = ScoreAggregator::new();
    aggregator.accumulate(&vec![HitResult::Hit50]);
    let before = aggregator.total;
    aggregator.accumulate(&vec![]);
    assert_eq!(aggregator.total, before);
    aggregator.accumulate(&vec![HitResult::Miss, HitResult::NoHit]);
    assert_eq!(aggregator.total, before);
    aggregator.accumulate(&vec![HitResult::Hit300, HitResult::Hit300]);
    assert_eq!(aggregator.total, before + 600);
}
