use crowd_sim::frame::Frame;

#[test]
fn first_frame_starts_on_cadence() {
    let f = Frame::new(32, 1000);
    assert_eq!(f.index, 0);
    assert_eq!(f.start_time, 1000);
    assert_eq!(f.ideal_start_time, 1000);
    assert_eq!(f.ideal_duration, 32);
}

#[test]
fn next_advances_by_whole_ticks_without_drift() {
    let t0 = 1000u64;
    let f0 = Frame::new(32, t0);
    let f1 = f0.next(t0 + 40);
    assert_eq!(f1.index, 1);
    assert_eq!(f1.start_time, t0 + 40);
    assert_eq!(f1.ideal_start_time, t0 + 32);
    assert_eq!((f1.ideal_start_time - t0) % 32, 0);
    let f2 = f1.next(t0 + 100);
    // 68 ms passed since the ideal start: two whole ticks
    assert_eq!(f2.index, 3);
    assert_eq!(f2.start_time, t0 + 100);
    assert_eq!(f2.ideal_start_time, t0 + 96);
    assert_eq!((f2.ideal_start_time - t0) % 32, 0);
}

#[test]
fn next_on_time_advances_one_tick() {
    let f0 = Frame::new(32, 0);
    let f1 = f0.next(32);
    assert_eq!(f1.index, 1);
    assert_eq!(f1.ideal_start_time, 32);
    let f2 = f1.next(64);
    assert_eq!(f2.index, 2);
    assert_eq!(f2.ideal_start_time, 64);
}

#[test]
fn wait_millis_counts_down_to_the_next_frame() {
    let f = Frame::new(32, 100);
    assert_eq!(f.wait_millis(100), 32);
    assert_eq!(f.wait_millis(110), 22);
    assert_eq!(f.wait_millis(131), 1);
    assert_eq!(f.wait_millis(132), 0);
    assert_eq!(f.wait_millis(500), 0);
}
