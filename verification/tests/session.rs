use cube::scramble::{Puzzle, Scrambler};
use cube::session::Session;
use cube::solve::{Penalty, Solve};
use std::time::Duration;

#[test]
fn new_session() {
    let session = Session::new();
    assert_eq!(session.solves().len(), 0);
}

#[test]
fn new_session_from_solves() {
    let scramble = Scrambler::new_scramble(Puzzle::Cube3x3);
    let session = Session::from_solves(vec![
        Solve::build(scramble.clone(), Some(Duration::from_millis(5440)), None).unwrap(),
        Solve::build(scramble.clone(), Some(Duration::from_millis(7480)), None).unwrap(),
        Solve::build(scramble.clone(), Some(Duration::from_millis(5000)), None).unwrap(),
    ]);

    assert_eq!(session.solves().len(), 3);
}

#[test]
fn save_solve() {
    let mut session = Session::new();
    let scramble = Scrambler::new_scramble(Puzzle::Cube3x3);

    session.save_solve(Solve::build(scramble.clone(), Some(Duration::from_millis(5440)), None).unwrap());
    session.save_solve(Solve::build(scramble.clone(), Some(Duration::from_millis(7480)), None).unwrap());
    session.save_solve(Solve::build(scramble.clone(), None, Some(Penalty::DNF)).unwrap());

    assert_eq!(session.solves().len(), 3);
}

#[test]
fn save_solve_adds_one_at_the_end() {
    let mut session = Session::new();
    for (i, millis) in [5440u64, 7480, 5000, 6120].iter().enumerate() {
        assert_eq!(session.solves().len(), i);
        let scramble = format!("scramble {}", i);
        session.save_solve(
            Solve::build(scramble, Some(Duration::from_millis(*millis)), None).unwrap(),
        );
        assert_eq!(session.solves().len(), i + 1);
    }
    let solves = session.solves();
    assert_eq!(solves[0].scramble(), "scramble 0");
    assert_eq!(solves[1].scramble(), "scramble 1");
    assert_eq!(solves[2].scramble(), "scramble 2");
    assert_eq!(solves[3].scramble(), "scramble 3");
    assert_eq!(*solves[0].time(), Some(Duration::from_millis(5440)));
    assert_eq!(*solves[3].time(), Some(Duration::from_millis(6120)));
}

#[test]
fn from_solves_keeps_the_order() {
    let session = Session::from_solves(vec![
        Solve::build("a".to_owned(), Some(Duration::from_millis(1)), None).unwrap(),
        Solve::build("b".to_owned(), None, Some(Penalty::DNF)).unwrap(),
    ]);
    assert_eq!(session.solves()[0].scramble(), "a");
    assert_eq!(session.solves()[1].scramble(), "b");
}

#[test]
fn times_leave_out_unfinished_solves() {
    let mut session = Session::new();
    assert_eq!(session.times(), Vec::<Duration>::new());

    session.save_solve(Solve::build("a".to_owned(), Some(Duration::from_millis(5440)), None).unwrap());
    session.save_solve(Solve::build("b".to_owned(), None, Some(Penalty::DNF)).unwrap());
    session.save_solve(
        Solve::build("c".to_owned(), Some(Duration::from_millis(7480)), Some(Penalty::Plus2)).unwrap(),
    );
    session.save_solve(Solve::build("d".to_owned(), None, Some(Penalty::DNF)).unwrap());

    assert_eq!(
        session.times(),
        vec![Duration::from_millis(5440), Duration::from_millis(7480)]
    );
    assert_eq!(session.solves().len(), 4);
}
