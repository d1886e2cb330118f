use sysfinder::timer::{ElapsedTimer, NANOS_PER_SECOND};

#[test]
fn elapsed_is_in_whole_seconds() {
    let timer = ElapsedTimer::start(1_000);
    assert_eq!(timer.elapsed_seconds(1_000), 0);
    assert_eq!(timer.elapsed_seconds(1_000 + NANOS_PER_SECOND - 1), 0);
    assert_eq!(timer.elapsed_seconds(1_000 + NANOS_PER_SECOND), 1);
    assert_eq!(timer.elapsed_seconds(1_000 + 59 * NANOS_PER_SECOND + 999_999_999), 59);
    assert_eq!(ElapsedTimer::start(0).elapsed_seconds(u64::MAX), 18_446_744_073);
}

#[test]
fn elapsed_is_never_negative() {
    let timer = ElapsedTimer::start(5 * NANOS_PER_SECOND);
    assert_eq!(timer.elapsed_seconds(0), 0);
    assert_eq!(timer.elapsed_seconds(4 * NANOS_PER_SECOND), 0);
}

#[test]
fn elapsed_does_not_decrease() {
    let timer = ElapsedTimer::start(123_456_789);
    let mut last = 0;
    let mut now = 0u64;
    while now < 10 * NANOS_PER_SECOND {
        let seconds = timer.elapsed_seconds(now);
        assert!(seconds >= last);
        last = seconds;
        now += 137_000_000;
    }
    assert_eq!(last, 9);
}
