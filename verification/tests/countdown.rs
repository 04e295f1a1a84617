use scene_cycle::countdown::{SceneTime, RESET_SECONDS};

#[test]
fn period_is_three_seconds() {
    assert_eq!(RESET_SECONDS, 3);
    assert_eq!(SceneTime::new(60).period(), 180);
    assert_eq!(SceneTime::new(1).period(), 3);
    assert_eq!(SceneTime::new(1_000_000).period(), 3_000_000);
    assert_eq!(SceneTime::new(1000).period(), 3000);
    assert_eq!(SceneTime::new(u64::MAX / 3).period(), u64::MAX);
}

#[test]
fn new_countdown_has_a_whole_period_on_it() {
    let mut time = SceneTime::new(60);
    assert_eq!(time.remaining(), 180);
    for left in (1..180u64).rev() {
        assert!(!time.tick(1));
        assert_eq!(time.remaining(), left);
    }
    assert!(time.tick(1));
    assert_eq!(time.remaining(), 180);
}

#[test]
fn countdown_waits_while_time_is_left() {
    let mut time = SceneTime::new(60);
    assert!(!time.tick(1));
    assert_eq!(time.remaining(), 179);
    assert!(!time.tick(100));
    assert_eq!(time.remaining(), 79);
    assert!(!time.tick(78));
    assert_eq!(time.remaining(), 1);
}

#[test]
fn countdown_expires_when_exactly_nothing_is_left() {
    let mut time = SceneTime::new(60);
    assert!(!time.tick(175));
    assert_eq!(time.remaining(), 5);
    assert!(!time.tick(4));
    assert!(time.tick(1));
    assert_eq!(time.remaining(), 180);
}

#[test]
fn overshoot_is_not_carried_into_the_next_period() {
    let mut time = SceneTime::new(10);
    let mut expired_at = Vec::new();
    for tick in 1..=12u32 {
        if time.tick(7) {
            expired_at.push(tick);
            assert_eq!(time.remaining(), 30);
        }
    }
    assert_eq!(expired_at, vec![5, 10]);
    assert_eq!(time.remaining(), 16);
}

#[test]
fn tick_of_no_duration_changes_nothing_while_time_is_left() {
    let mut time = SceneTime::new(60);
    assert!(!time.tick(0));
    assert_eq!(time.remaining(), 180);
    assert!(!time.tick(175));
    assert!(!time.tick(0));
    assert_eq!(time.remaining(), 5);
}

#[test]
fn tick_longer_than_what_is_left_expires_once() {
    let mut time = SceneTime::new(60);
    assert!(time.tick(u64::MAX));
    assert_eq!(time.remaining(), 180);
}

#[test]
fn expiries_match_elapsed_periods_when_the_tick_divides_the_period() {
    for delta in [1u64, 2, 3, 4, 5, 6, 9, 10, 12, 15, 18, 20, 30, 36, 45, 60, 90, 180] {
        let mut time = SceneTime::new(60);
        let mut expiries = 0u64;
        for tick in 1..=1000u64 {
            if time.tick(delta) {
                expiries += 1;
            }
            assert_eq!(expiries, tick * delta / 180);
        }
    }
}

#[test]
fn expiries_never_come_early() {
    for delta in [7u64, 11, 50, 100, 179, 181, 1000] {
        let mut time = SceneTime::new(60);
        let mut expiries = 0u64;
        for tick in 1..=500u64 {
            if time.tick(delta) {
                expiries += 1;
            }
            assert!(expiries * 180 <= tick * delta);
        }
    }
}
