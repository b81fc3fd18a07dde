use process_monitor::process_stats::ProcessStats;

#[test]
fn test_new_accepts_one_second_interval() {
    let res = ProcessStats::new(1, 0);

    assert!(res.is_ok());
    let res = res.unwrap();
    assert_eq!(res.sample_interval_secs(), 1);
    assert_eq!(res.capacity(), 60);
    assert_eq!(res.len(), 0);
}

#[test]
fn test_new_accepts_sixty_second_interval() {
    let result = ProcessStats::new(60, 0);

    assert!(result.is_ok());
}

#[test]
fn test_new_rejects_zero_interval() {
    let result = ProcessStats::new(0, 0);

    assert!(result.is_err());
}

#[test]
fn test_new_rejects_interval_greater_than_sixty_seconds() {
    let result = ProcessStats::new(61, 0);

    assert!(result.is_err());
}

#[test]
fn test_new_rejects_fractional_second_interval() {
    let result = ProcessStats::new(1, 500_000_000);

    assert!(result.is_err());
}

#[test]
fn test_push_adds_sample() {
    let mut stats = ProcessStats::new(1, 0).unwrap();

    stats.push((100.0f32).to_bits(), (50.0f32).to_bits(), 1024);

    assert_eq!(stats.len(), 1);

    let sample = stats.sample(0).unwrap();

    assert_eq!(f32::from_bits(sample.cpu_total_bits()), 100.0);
    assert_eq!(f32::from_bits(sample.cpu_avg_bits()), 50.0);
    assert_eq!(sample.mem(), 1024);
}

#[test]
fn test_push_adds_newest_sample_to_front() {
    let mut stats = ProcessStats::new(1, 0).unwrap();

    stats.push((10.0f32).to_bits(), (1.0f32).to_bits(), 100);
    stats.push((20.0f32).to_bits(), (2.0f32).to_bits(), 200);
    stats.push((30.0f32).to_bits(), (3.0f32).to_bits(), 300);

    assert_eq!(stats.len(), 3);

    assert_eq!(f32::from_bits(stats.sample(0).unwrap().cpu_avg_bits()), 3.0);
    assert_eq!(f32::from_bits(stats.sample(1).unwrap().cpu_avg_bits()), 2.0);
    assert_eq!(f32::from_bits(stats.sample(2).unwrap().cpu_avg_bits()), 1.0);
}

#[test]
fn test_push_evicts_oldest_sample_when_capacity_is_reached() {
    let mut stats = ProcessStats::new(1, 0).unwrap();

    for i in 0..=stats.capacity() {
        stats.push((i as f32).to_bits(), (i as f32).to_bits(), i as u64);
    }

    assert_eq!(stats.len(), stats.capacity());

    // The newest sample should be retained.
    assert_eq!(f32::from_bits(stats.sample(0).unwrap().cpu_avg_bits()), stats.capacity() as f32);

    // The oldest sample should be sample 1, since sample 0 was evicted.
    assert_eq!(f32::from_bits(stats.sample(stats.len() - 1).unwrap().cpu_avg_bits()), 1.0);
}

#[test]
fn cpu_window_holds_the_samples_of_the_span() {
    let mut stats = ProcessStats::new(5, 0).unwrap();
    for i in 1..=12 {
        stats.push((i as f32).to_bits(), (0.5f32 * i as f32).to_bits(), 0);
    }
    let window = stats.cpu_window(30, true).unwrap();
    assert_eq!(window.len(), 6);
    assert_eq!(f32::from_bits(window[0]), 12.0);
    assert_eq!(f32::from_bits(window[5]), 7.0);
    let avg = stats.cpu_window(60, false).unwrap();
    assert_eq!(avg.len(), 12);
    assert_eq!(f32::from_bits(avg[11]), 0.5);
    assert!(stats.cpu_window(120, true).is_none());
}

#[test]
fn mean_memory_over_a_span() {
    let mut stats = ProcessStats::new(1, 0).unwrap();
    assert_eq!(stats.mean_mem_usage_last_30s(), None);
    for i in 1..=60u64 {
        stats.push(0, 0, i * 10);
    }
    // Newest first: the last 30 samples hold 600 down to 310.
    assert_eq!(stats.mean_mem_usage_last_30s(), Some(455));
    assert_eq!(stats.mean_mem_usage_last_minute(), Some(305));
}

#[test]
fn samples_in_time_span_counts_whole_intervals() {
    let stats = ProcessStats::new(5, 0).unwrap();
    assert_eq!(stats.samples_in_time_span(60), 12);
    assert_eq!(stats.samples_in_time_span(30), 6);
    assert_eq!(stats.samples_in_time_span(4), 0);
}

#[test]
fn test_sixty_second_interval_with_thirty_second_span_returns_none() {
    let mut one = ProcessStats::new(1, 0).unwrap();
    one.push(10.0f32.to_bits(), 10.0f32.to_bits(), 0);
    assert!(one.cpu_window(30, false).is_none());

    let mut stats = ProcessStats::new(60, 0).unwrap();
    stats.push(10.0f32.to_bits(), 10.0f32.to_bits(), 100);
    assert!(stats.cpu_window(30, false).is_none());
    assert!(stats.cpu_window(30, true).is_none());
    assert_eq!(stats.mean_mem_usage_last_30s(), None);
    assert_eq!(stats.cpu_window(60, false).unwrap().len(), 1);
    assert_eq!(stats.mean_mem_usage_last_minute(), Some(100));
}
