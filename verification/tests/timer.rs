use cube::timer::{Timer, TimerState};
use std::time::{Duration, Instant};

const SLEEP_TIME: Duration = Duration::from_millis(10);

fn sleep_some_time() {
    let begin = Instant::now();
    while begin.elapsed() < SLEEP_TIME {
        std::hint::spin_loop();
    }
}

#[test]
fn new_timer() {
    let timer = Timer::new();
    assert!(matches!(timer.state(), TimerState::Idle));
}

#[test]
fn start_from_idle() {
    let mut timer = Timer::new();
    timer.start();
    assert!(matches!(timer.state(), TimerState::Running { .. }))
}

#[test]
fn start_from_paused() {
    let mut timer = Timer::new();
    timer.start();
    sleep_some_time();

    timer.pause();
    let paused_time = timer.elapsed();

    timer.start();
    sleep_some_time();

    assert!(matches!(timer.state(), TimerState::Running { .. }));
    assert!(timer.elapsed() > paused_time);
}

#[test]
fn elapsed() {
    let mut timer = Timer::new();
    timer.start();
    sleep_some_time();

    let elapsed = timer.elapsed();
    assert!(elapsed >= SLEEP_TIME);
    assert!(elapsed < SLEEP_TIME * 2);
}

#[test]
fn pause() {
    let mut timer = Timer::new();
    timer.start();
    sleep_some_time();

    timer.pause();
    let paused_time = timer.elapsed();

    sleep_some_time();
    assert_eq!(timer.elapsed(), paused_time);
}

#[test]
fn reset() {
    let mut timer = Timer::new();
    timer.start();
    sleep_some_time();

    timer.reset();
    assert!(matches!(timer.state(), TimerState::Idle));
    assert_eq!(timer.elapsed(), Duration::ZERO);
}

#[test]
fn multiple_start_reset_cycles() {
    let mut timer = Timer::new();

    timer.start();
    sleep_some_time();
    timer.reset();

    timer.start();
    sleep_some_time();
    timer.pause();

    let paused_time = timer.elapsed();
    assert!(paused_time >= SLEEP_TIME);

    timer.start();
    sleep_some_time();

    assert!(timer.elapsed() > paused_time);
}

#[test]
fn idle_timer_shows_zero() {
    let timer = Timer::new();
    assert_eq!(timer.elapsed(), Duration::ZERO);
    assert_eq!(timer.elapsed_at(Instant::now()), Duration::ZERO);
}

#[test]
fn running_timer_shows_the_time_since_its_start() {
    let begin = Instant::now();
    let mut timer = Timer::new();
    timer.start_at(begin);
    assert!(matches!(timer.state(), TimerState::Running { start } if *start == begin));
    assert_eq!(timer.elapsed_at(begin), Duration::ZERO);
    assert_eq!(
        timer.elapsed_at(begin + Duration::from_millis(1500)),
        Duration::from_millis(1500)
    );
    assert_eq!(
        timer.elapsed_at(begin + Duration::from_millis(1501)),
        Duration::from_millis(1501)
    );
}

#[test]
fn running_timer_read_before_its_start_shows_zero() {
    let begin = Instant::now();
    let mut timer = Timer::new();
    timer.start_at(begin + Duration::from_secs(5));
    assert_eq!(timer.elapsed_at(begin), Duration::ZERO);
}

#[test]
fn start_of_a_running_timer_changes_nothing() {
    let begin = Instant::now();
    let mut timer = Timer::new();
    timer.start_at(begin);
    timer.start_at(begin + Duration::from_secs(3));
    assert!(matches!(timer.state(), TimerState::Running { start } if *start == begin));
    assert_eq!(
        timer.elapsed_at(begin + Duration::from_secs(4)),
        Duration::from_secs(4)
    );
}

#[test]
fn pause_keeps_the_time_shown() {
    let begin = Instant::now();
    let mut timer = Timer::new();
    timer.start_at(begin);
    timer.pause_at(begin + Duration::from_millis(2345));
    assert!(matches!(
        timer.state(),
        TimerState::Paused { elapsed } if *elapsed == Duration::from_millis(2345)
    ));
    assert_eq!(
        timer.elapsed_at(begin + Duration::from_secs(10)),
        Duration::from_millis(2345)
    );
    assert_eq!(
        timer.elapsed_at(begin + Duration::from_secs(20)),
        Duration::from_millis(2345)
    );
    assert_eq!(timer.elapsed(), Duration::from_millis(2345));
}

#[test]
fn pause_of_a_timer_that_does_not_run_changes_nothing() {
    let now = Instant::now();
    let mut timer = Timer::new();
    timer.pause_at(now);
    assert!(matches!(timer.state(), TimerState::Idle));

    timer.start_at(now);
    timer.pause_at(now + Duration::from_secs(1));
    timer.pause_at(now + Duration::from_secs(2));
    assert_eq!(timer.elapsed(), Duration::from_secs(1));
}

#[test]
fn resumed_timer_carries_on() {
    let begin = Instant::now() + Duration::from_secs(100);
    let mut timer = Timer::new();
    timer.start_at(begin);
    timer.pause_at(begin + Duration::from_secs(7));

    let resumed = begin + Duration::from_secs(60);
    timer.start_at(resumed);
    assert!(matches!(
        timer.state(),
        TimerState::Running { start } if *start == resumed - Duration::from_secs(7)
    ));
    assert_eq!(timer.elapsed_at(resumed), Duration::from_secs(7));
    assert_eq!(
        timer.elapsed_at(resumed + Duration::from_millis(2500)),
        Duration::from_millis(9500)
    );
}

#[test]
fn reset_loses_the_time() {
    let begin = Instant::now();
    let mut timer = Timer::new();
    timer.start_at(begin);
    timer.pause_at(begin + Duration::from_secs(7));
    timer.reset();
    assert!(matches!(timer.state(), TimerState::Idle));
    assert_eq!(timer.elapsed_at(begin + Duration::from_secs(8)), Duration::ZERO);

    timer.start_at(begin + Duration::from_secs(9));
    assert_eq!(
        timer.elapsed_at(begin + Duration::from_secs(10)),
        Duration::from_secs(1)
    );
}

#[test]
fn start_with_resumes_from_the_instant_given() {
    let begin = Instant::now() + Duration::from_secs(100);

    let mut timer = Timer::new();
    timer.start_with(begin, None);
    assert!(matches!(timer.state(), TimerState::Running { start } if *start == begin));

    timer.start_with(begin + Duration::from_secs(1), Some(begin - Duration::from_secs(1)));
    assert!(matches!(timer.state(), TimerState::Running { start } if *start == begin));

    timer.pause_at(begin + Duration::from_secs(7));
    timer.start_with(begin + Duration::from_secs(60), None);
    assert!(matches!(
        timer.state(),
        TimerState::Paused { elapsed } if *elapsed == Duration::from_secs(7)
    ));

    timer.start_with(
        begin + Duration::from_secs(60),
        Some(begin + Duration::from_secs(53)),
    );
    assert!(matches!(
        timer.state(),
        TimerState::Running { start } if *start == begin + Duration::from_secs(53)
    ));
}

#[test]
fn running_timer_shows_more_as_time_passes() {
    let mut timer = Timer::new();
    timer.start();
    let mut shown = timer.elapsed();
    for _ in 0..5 {
        let begin = Instant::now();
        while begin.elapsed() < Duration::from_millis(1) {
            std::hint::spin_loop();
        }
        let next = timer.elapsed();
        assert!(next > shown);
        shown = next;
    }
}

#[test]
fn elapsed_at_given_instants() {
    let begin = Instant::now();
    let mut timer = Timer::new();
    timer.start_at(begin);

    let elapsed = timer.elapsed_at(begin + SLEEP_TIME + Duration::from_millis(3));
    assert!(elapsed >= SLEEP_TIME);
    assert!(elapsed < SLEEP_TIME * 2);
}

#[test]
fn timer_reached_by_starts_pauses_and_resets_runs_after_start() {
    let mut timer = Timer::new();
    for round in 0..20 {
        timer.start();
        assert!(matches!(timer.state(), TimerState::Running { .. }));
        let begin = Instant::now();
        while begin.elapsed() < Duration::from_micros(200) {
            std::hint::spin_loop();
        }
        timer.pause();
        assert!(matches!(timer.state(), TimerState::Paused { .. }));
        let shown = timer.elapsed();
        timer.start();
        assert!(matches!(timer.state(), TimerState::Running { .. }));
        assert!(timer.elapsed() >= shown);
        if round % 5 == 4 {
            timer.reset();
            assert!(matches!(timer.state(), TimerState::Idle));
        } else {
            timer.pause();
        }
    }
}
