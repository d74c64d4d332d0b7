use mad_rust::thread::{other_instance_running, ProcessInfo};
use mad_rust::time::{millis, timeout_1s, Timer};

#[test]
fn timer_decisions() {
    let timer = Timer::new(millis(100));
    assert!(!timer.due(99_999_999));
    assert!(timer.due(100_000_000));
    assert_eq!(timer.remaining_nanos(40_000_000), 60_000_000);
    assert_eq!(timer.remaining_nanos(200_000_000), 0);
    assert_eq!(timeout_1s().as_secs(), 1);
}

#[test]
fn timer_check_restarts_only_when_due() {
    let mut timer = Timer::new(timeout_1s());
    assert!(!timer.check());
    let mut zero = Timer::new(millis(0));
    assert!(zero.check());
}

#[test]
fn another_copy_is_detected() {
    let processes = vec![
        ProcessInfo { pid: 1, same_exe: false },
        ProcessInfo { pid: 7, same_exe: true },
    ];
    assert!(!other_instance_running(7, &processes));
    assert!(other_instance_running(3, &processes));
    assert!(!other_instance_running(3, &vec![]));
}
