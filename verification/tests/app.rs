use cube::app::{App, Effect, Key};
use cube::session::Session;
use cube::solve::Solve;
use cube::timer::TimerState;
use std::time::{Duration, Instant};

fn wait_a_little() {
    let begin = Instant::now();
    while begin.elapsed() < Duration::from_millis(5) {
        std::hint::spin_loop();
    }
}

#[test]
fn app_starts_idle_with_a_scramble() {
    let app = App::build(Session::new());
    assert!(!app.should_quit);
    assert!(matches!(app.timer.state(), TimerState::Idle));
    assert_eq!(app.session.solves().len(), 0);
    let scramble = app.current_scramble.unwrap();
    assert_eq!(scramble.split(' ').count(), 20);
}

#[test]
fn app_keeps_the_session_it_is_built_with() {
    let session = Session::from_solves(vec![
        Solve::build("R U".to_owned(), Some(Duration::from_millis(5440)), None).unwrap(),
    ]);
    let app = App::build(session);
    assert_eq!(app.session.solves().len(), 1);
    assert_eq!(app.session.solves()[0].scramble(), "R U");
}

#[test]
fn toggle_starts_and_ends_an_attempt() {
    let mut app = App::build(Session::new());
    let scramble = app.current_scramble.clone().unwrap();

    assert_eq!(app.on_key_pressed(Key::Char(' ')), Effect::Nothing);
    assert!(matches!(app.timer.state(), TimerState::Running { .. }));
    assert_eq!(app.session.solves().len(), 0);
    assert_eq!(app.current_scramble, Some(scramble.clone()));

    wait_a_little();

    assert_eq!(
        app.on_key_pressed(Key::Char(' ')),
        Effect::SaveSessionThenScramble
    );
    assert!(matches!(app.timer.state(), TimerState::Paused { .. }));
    let shown = app.timer.elapsed();
    assert!(shown >= Duration::from_millis(5));

    assert_eq!(app.session.solves().len(), 1);
    let solve = &app.session.solves()[0];
    assert_eq!(solve.scramble(), scramble);
    assert_eq!(*solve.time(), Some(shown));
    assert_eq!(*solve.penalty(), None);

    // until the session is stored there is no scramble
    assert_eq!(app.current_scramble, None);

    app.next_scramble();
    let next = app.current_scramble.clone().unwrap();
    assert_eq!(next.split(' ').count(), 20);
    assert_ne!(next, scramble);
    assert!(!app.should_quit);
    assert_eq!(app.session.solves().len(), 1);
    assert_eq!(app.timer.elapsed(), shown);
}

#[test]
fn toggle_after_an_attempt_starts_from_zero() {
    let mut app = App::build(Session::new());
    app.on_key_pressed(Key::Char(' '));
    wait_a_little();
    app.on_key_pressed(Key::Char(' '));
    app.next_scramble();
    assert!(app.timer.elapsed() >= Duration::from_millis(5));

    let before = Instant::now();
    app.on_key_pressed(Key::Char(' '));
    assert!(matches!(
        app.timer.state(),
        TimerState::Running { start } if *start >= before
    ));
    app.on_key_pressed(Key::Char(' '));
    assert_eq!(app.session.solves().len(), 2);
    assert_eq!(*app.session.solves()[1].time(), Some(app.timer.elapsed()));
}

#[test]
fn attempt_at_given_instants() {
    let mut app = App::build(Session::new());
    let first_scramble = app.current_scramble.clone().unwrap();
    let begin = Instant::now();

    app.begin_attempt(begin);
    assert!(matches!(
        app.timer.state(),
        TimerState::Running { start } if *start == begin
    ));
    assert_eq!(app.session.solves().len(), 0);
    assert_eq!(app.current_scramble, Some(first_scramble.clone()));

    app.finish_attempt(begin + Duration::from_millis(12_340));
    assert!(matches!(
        app.timer.state(),
        TimerState::Paused { elapsed } if *elapsed == Duration::from_millis(12_340)
    ));
    assert_eq!(app.session.solves().len(), 1);
    assert_eq!(app.session.solves()[0].scramble(), first_scramble);
    assert_eq!(
        *app.session.solves()[0].time(),
        Some(Duration::from_millis(12_340))
    );
    assert_eq!(*app.session.solves()[0].penalty(), None);
    assert_eq!(app.current_scramble, None);
    assert!(!app.should_quit);

    // the next attempt starts from zero and is saved behind the first
    app.current_scramble = Some("R U R' U'".to_owned());
    let again = begin + Duration::from_secs(60);
    app.begin_attempt(again);
    assert_eq!(app.timer.elapsed_at(again), Duration::ZERO);
    app.finish_attempt(again + Duration::from_millis(9_870));
    assert_eq!(app.session.solves().len(), 2);
    assert_eq!(app.session.solves()[1].scramble(), "R U R' U'");
    assert_eq!(
        *app.session.solves()[1].time(),
        Some(Duration::from_millis(9_870))
    );
    assert_eq!(
        app.session.times(),
        vec![Duration::from_millis(12_340), Duration::from_millis(9_870)]
    );
}

#[test]
fn quit_key_asks_to_save_and_quits_only_afterwards() {
    let mut app = App::build(Session::new());
    let scramble = app.current_scramble.clone();
    assert_eq!(app.on_key_pressed(Key::Char('q')), Effect::SaveSessionThenQuit);
    // nothing has changed yet: where storing fails, the program goes on
    assert!(!app.should_quit);
    assert!(matches!(app.timer.state(), TimerState::Idle));
    assert_eq!(app.session.solves().len(), 0);
    assert_eq!(app.current_scramble, scramble);

    app.quit();
    assert!(app.should_quit);
    assert!(matches!(app.timer.state(), TimerState::Idle));
    assert_eq!(app.session.solves().len(), 0);
    assert_eq!(app.current_scramble, scramble);
}

#[test]
fn quit_key_during_an_attempt_leaves_the_timer_running() {
    let mut app = App::build(Session::new());
    app.on_key_pressed(Key::Char(' '));
    assert_eq!(app.on_key_pressed(Key::Char('q')), Effect::SaveSessionThenQuit);
    assert!(matches!(app.timer.state(), TimerState::Running { .. }));
    assert!(!app.should_quit);
}

#[test]
fn other_keys_do_nothing() {
    let mut app = App::build(Session::new());
    let scramble = app.current_scramble.clone();
    assert_eq!(app.on_key_pressed(Key::Char('x')), Effect::Nothing);
    assert_eq!(app.on_key_pressed(Key::Char('Q')), Effect::Nothing);
    assert_eq!(app.on_key_pressed(Key::Other), Effect::Nothing);
    assert!(!app.should_quit);
    assert!(matches!(app.timer.state(), TimerState::Idle));
    assert_eq!(app.session.solves().len(), 0);
    assert_eq!(app.current_scramble, scramble);
}
