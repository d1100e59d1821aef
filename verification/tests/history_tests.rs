use netviz::history::{ProgressChannel, SampleHistory};

#[test]
fn window_of_long_history_is_the_last_suffix() {
    let mut h = SampleHistory::new();
    for i in 1..=1000u64 {
        assert!(h.record(i, i * 2));
    }
    let w = h.window(50);
    assert_eq!(w.len(), 50);
    for (t, s) in w.iter().enumerate() {
        assert_eq!(s.iteration, 951 + t as u64);
        assert_eq!(s.error_bits, (951 + t as u64) * 2);
    }
    for t in 1..w.len() {
        assert!(w[t - 1].iteration < w[t].iteration);
    }
}

#[test]
fn window_of_short_history_is_the_whole_history() {
    let mut h = SampleHistory::new();
    for i in 0..10u64 {
        assert!(h.record(i * 3, i));
    }
    let w = h.window(50);
    assert_eq!(w.len(), 10);
    for (t, s) in w.iter().enumerate() {
        assert_eq!(s.iteration, t as u64 * 3);
    }
    assert_eq!(h.len(), 10); // windowing removes nothing
    assert_eq!(h.window(0).len(), 0);
}

#[test]
fn stale_or_duplicate_iterations_are_rejected() {
    let mut h = SampleHistory::new();
    assert!(h.record(5, 100));
    assert!(!h.record(5, 200)); // duplicate iteration
    assert!(!h.record(4, 300)); // stale iteration
    assert!(h.record(6, 400));
    assert_eq!(h.len(), 2);
    assert_eq!(h.last_iteration(), 6);
    assert_eq!(h.last_error_bits(), 400);
}

#[test]
fn channel_snapshots_are_increasing_under_interleaving() {
    let ch = ProgressChannel::new();
    for i in 0..100u64 {
        ch.report(i, i ^ 0xdead);
        if i % 7 == 0 {
            let w = ch.snapshot_window(20);
            assert!(w.len() <= 20);
            for t in 1..w.len() {
                assert!(w[t - 1].iteration < w[t].iteration);
            }
        }
    }
    let w = ch.snapshot_window(20);
    assert_eq!(w.len(), 20);
    assert_eq!(w[0].iteration, 80);
    assert_eq!(w[19].iteration, 99);
}

#[test]
fn channel_latest_pair_comes_from_one_report() {
    let ch = ProgressChannel::new();
    assert_eq!(ch.snapshot_latest(), (0, 0));
    ch.report(1, 11);
    ch.report(2, 22);
    assert_eq!(ch.snapshot_latest(), (2, 22));
    ch.report(2, 33); // rejected: the pair must not mix reports
    assert_eq!(ch.snapshot_latest(), (2, 22));
}
