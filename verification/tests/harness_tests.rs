use spawn_memory::Config;
use spawn_memory::ConfigError;
use spawn_memory::Harness;
use spawn_memory::SampleReport;
use spawn_memory::StatsError;
use spawn_memory::StatsSnapshot;

/// Drives a full spawn loop, feeding the given counter pairs to the samples
/// in order, and returns the emitted reports.
fn drive(total: usize, interval: usize, snaps: &[(u64, u64)]) -> Vec<SampleReport> {
    let config = Config::new(total, interval).unwrap();
    let mut harness = Harness::new(config);
    let mut reports: Vec<SampleReport> = Vec::new();
    let mut next: usize = 0;
    while !harness.spawning_done() {
        harness.note_spawn();
        if harness.sample_pending() {
            let (allocated, resident) = snaps[next];
            next += 1;
            reports.push(harness.record_sample(StatsSnapshot { allocated, resident }));
        }
    }
    assert_eq!(harness.spawned(), total);
    assert_eq!(harness.reports_emitted(), reports.len());
    reports
}

#[test]
fn config_rejects_zero_interval() {
    assert_eq!(Config::new(10, 0).unwrap_err(), ConfigError::ZeroSampleInterval);
    assert_eq!(Config::new(0, 0).unwrap_err(), ConfigError::ZeroSampleInterval);
}

#[test]
fn config_accepts_positive_interval() {
    let config = Config::new(10_000, 100).unwrap();
    assert_eq!(config.total_tasks(), 10_000);
    assert_eq!(config.sample_interval(), 100);
}

#[test]
fn total_zero_run_is_empty() {
    let config = Config::new(0, 100).unwrap();
    let harness = Harness::new(config);
    assert!(harness.spawning_done());
    assert!(!harness.sample_pending());
    assert!(harness.all_joined());
    assert_eq!(harness.reports_emitted(), 0);
    assert_eq!(harness.spawned(), 0);
    assert_eq!(harness.joined(), 0);
}

#[test]
fn report_count_is_ceiling_of_total_over_interval() {
    // 10 tasks at stride 3: samples at 0, 3, 6, 9 -> (10 - 1) / 3 + 1 = 4.
    let snaps: Vec<(u64, u64)> = vec![(0, 0); 4];
    let reports = drive(10, 3, &snaps);
    assert_eq!(reports.len(), 4);
    let indices: Vec<usize> = reports.iter().map(|r| r.index).collect();
    assert_eq!(indices, vec![0, 3, 6, 9]);

    // A stride of 1 samples every index.
    let snaps: Vec<(u64, u64)> = vec![(0, 0); 7];
    let reports = drive(7, 1, &snaps);
    assert_eq!(reports.len(), 7);

    // A stride larger than the total leaves only the sample at index 0.
    let snaps: Vec<(u64, u64)> = vec![(0, 0); 1];
    let reports = drive(4, 100, &snaps);
    assert_eq!(reports.len(), 1);
    assert_eq!(reports[0].index, 0);
}

#[test]
fn deltas_are_against_previous_sample() {
    // 6 tasks at stride 2: samples at 0, 2, 4 see counters that grow by a
    // different amount each time; each delta must equal the growth since the
    // previous sample, not the growth since the start.
    let snaps = [(100, 50), (250, 80), (400, 200)];
    let reports = drive(6, 2, &snaps);
    assert_eq!(reports.len(), 3);
    assert_eq!(reports[0].index, 0);
    assert_eq!(reports[0].delta_allocated, 100);
    assert_eq!(reports[0].delta_resident, 50);
    assert_eq!(reports[1].index, 2);
    assert_eq!(reports[1].delta_allocated, 150);
    assert_eq!(reports[1].delta_resident, 30);
    assert_eq!(reports[2].index, 4);
    assert_eq!(reports[2].delta_allocated, 150);
    assert_eq!(reports[2].delta_resident, 120);
}

#[test]
fn deltas_can_be_negative() {
    // Counters that shrink between samples give negative deltas.
    let snaps = [(1000, 900), (400, 100)];
    let reports = drive(2, 1, &snaps);
    assert_eq!(reports[1].delta_allocated, -600);
    assert_eq!(reports[1].delta_resident, -800);
}

#[test]
fn end_to_end_five_hundred_tasks() {
    // 500 tasks at stride 100 against counters worth i * 1000 at spawn
    // index i: five reports, at indices 0 through 400, the first with a
    // delta of 0 and every later one with a delta of exactly 100_000.
    let total: usize = 500;
    let interval: usize = 100;
    let snaps: Vec<(u64, u64)> = (0..5).map(|j| {
        let i = (j * 100) as u64;
        (i * 1000, i * 1000)
    }).collect();
    let reports = drive(total, interval, &snaps);
    assert_eq!(reports.len(), 5);
    for (j, report) in reports.iter().enumerate() {
        assert_eq!(report.index, j * 100);
        if j == 0 {
            assert_eq!(report.delta_allocated, 0);
            assert_eq!(report.delta_resident, 0);
        } else {
            assert_eq!(report.delta_allocated, 100_000);
            assert_eq!(report.delta_resident, 100_000);
        }
    }
}

#[test]
fn every_spawn_is_joined_exactly_once() {
    let total: usize = 3;
    let snaps: Vec<(u64, u64)> = vec![(0, 0); 3];
    let config = Config::new(total, 1).unwrap();
    let mut harness = Harness::new(config);
    let mut next: usize = 0;
    while !harness.spawning_done() {
        harness.note_spawn();
        if harness.sample_pending() {
            let (allocated, resident) = snaps[next];
            next += 1;
            harness.record_sample(StatsSnapshot { allocated, resident });
        }
    }
    assert_eq!(harness.spawned(), total);
    assert!(!harness.all_joined());
    for joined_so_far in 0..total {
        assert_eq!(harness.joined(), joined_so_far);
        harness.note_join();
    }
    assert!(harness.all_joined());
    assert_eq!(harness.joined(), total);
}

#[test]
fn oversized_counters_are_rejected_without_effect() {
    let config = Config::new(1, 1).unwrap();
    let mut harness = Harness::new(config);
    harness.note_spawn();
    assert!(harness.sample_pending());
    let oversized = StatsSnapshot { allocated: u64::MAX, resident: 0 };
    assert_eq!(
        harness.record_sample_checked(oversized),
        Err(StatsError::CounterOutOfRange)
    );
    // The rejected measurement left the sample still due, and a fitting one
    // is then accepted.
    assert!(harness.sample_pending());
    assert_eq!(harness.reports_emitted(), 0);
    let report = harness
        .record_sample_checked(StatsSnapshot { allocated: 7, resident: 9 })
        .unwrap();
    assert_eq!(report, SampleReport { index: 0, delta_allocated: 7, delta_resident: 9 });
    assert!(!harness.sample_pending());
    assert_eq!(harness.reports_emitted(), 1);
}

#[test]
fn live_allocator_sampling_works() {
    // A small run against the real allocator introspection: jemalloc is
    // linked into this binary, so every due sample must yield a report, and
    // the report count must follow the cadence.
    let config = Config::new(5, 2).unwrap();
    let mut harness = Harness::new(config);
    while !harness.spawning_done() {
        harness.note_spawn();
        if harness.sample_pending() {
            let report = harness.sample_now().unwrap();
            assert_eq!(report.index % 2, 0);
        }
    }
    assert_eq!(harness.reports_emitted(), 3);
}

#[test]
fn sampling_hits_exactly_the_multiples_of_the_interval() {
    let config = Config::new(9, 4).unwrap();
    let mut harness = Harness::new(config);
    let mut sampled_at: Vec<usize> = Vec::new();
    let mut index: usize = 0;
    while !harness.spawning_done() {
        harness.note_spawn();
        if harness.sample_pending() {
            sampled_at.push(index);
            harness.record_sample(StatsSnapshot { allocated: 0, resident: 0 });
        }
        index += 1;
    }
    assert_eq!(sampled_at, vec![0, 4, 8]);
}
