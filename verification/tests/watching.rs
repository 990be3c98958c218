use resize_rabbit::watch::{OverrideWatch, WatchDecision, WatchNext};

#[test]
fn watcher_checks_fifteen_times_then_stops() {
    let mut w = OverrideWatch::new();
    let mut sleeps = Vec::new();
    let mut checks = 0;
    loop {
        let d = w.poll(true, true);
        checks += 1;
        assert!(!d.reapply);
        match d.next {
            WatchNext::Sleep { seconds } => sleeps.push(seconds),
            WatchNext::Stop => break,
        }
    }
    assert_eq!(checks, 15);
    assert_eq!(sleeps, vec![1, 1, 1, 1, 1, 1, 1, 1, 1, 5, 5, 5, 5, 5]);
    assert_eq!(sleeps.iter().sum::<u64>(), 34);
    assert_eq!(w.poll(true, false), WatchDecision { reapply: false, next: WatchNext::Stop });
}

#[test]
fn moved_window_is_put_back() {
    let mut w = OverrideWatch::new();
    assert_eq!(w.poll(true, false), WatchDecision { reapply: true, next: WatchNext::Sleep { seconds: 1 } });
    assert_eq!(w.poll_counter, 1);
}

#[test]
fn gone_process_stops_the_watcher() {
    let mut w = OverrideWatch::new();
    w.poll(true, true);
    assert_eq!(w.poll(false, false), WatchDecision { reapply: false, next: WatchNext::Stop });
    assert!(w.stopped);
    assert_eq!(w.poll_counter, 1);
}
