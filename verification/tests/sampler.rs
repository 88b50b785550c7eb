use egui_wgpu_performance::sampler::FpsSampler;

fn run_period(sampler: &mut FpsSampler, frames: usize) -> usize {
    for _ in 0..frames {
        sampler.record_frame();
    }
    sampler.sample()
}

#[test]
fn new_sampler_has_published_nothing() {
    let sampler = FpsSampler::new();
    assert_eq!(sampler.current_rate(), 0);
    assert_eq!(sampler.frame_count(), 0);
    let sampler = FpsSampler::default();
    assert_eq!(sampler.current_rate(), 0);
    assert_eq!(sampler.frame_count(), 0);
}

#[test]
fn record_frame_counts_by_one() {
    let mut sampler = FpsSampler::new();
    sampler.record_frame();
    assert_eq!(sampler.frame_count(), 1);
    sampler.record_frame();
    sampler.record_frame();
    assert_eq!(sampler.frame_count(), 3);
    assert_eq!(sampler.current_rate(), 0);
}

#[test]
fn sample_publishes_the_frames_of_the_period() {
    for frames in [0usize, 1, 2, 59, 60, 144, 10_000] {
        let mut sampler = FpsSampler::new();
        assert_eq!(run_period(&mut sampler, frames), frames);
        assert_eq!(sampler.current_rate(), frames);
        assert_eq!(sampler.frame_count(), 0);
    }
}

#[test]
fn rate_is_stale_until_the_next_sample() {
    let mut sampler = FpsSampler::new();
    run_period(&mut sampler, 30);
    for _ in 0..45 {
        sampler.record_frame();
        assert_eq!(sampler.current_rate(), 30);
    }
    assert_eq!(sampler.frame_count(), 45);
    assert_eq!(sampler.sample(), 45);
    assert_eq!(sampler.current_rate(), 45);
}

#[test]
fn each_period_is_counted_from_zero() {
    let mut sampler = FpsSampler::new();
    assert_eq!(run_period(&mut sampler, 7), 7);
    assert_eq!(run_period(&mut sampler, 3), 3);
    assert_eq!(run_period(&mut sampler, 0), 0);
    assert_eq!(sampler.current_rate(), 0);
    assert_eq!(run_period(&mut sampler, 12), 12);
    assert_eq!(sampler.current_rate(), 12);
}

#[test]
fn sample_without_frames_publishes_zero() {
    let mut sampler = FpsSampler::new();
    run_period(&mut sampler, 5);
    assert_eq!(sampler.sample(), 0);
    assert_eq!(sampler.current_rate(), 0);
    assert_eq!(sampler.frame_count(), 0);
}
