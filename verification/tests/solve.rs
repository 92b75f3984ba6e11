use cube::solve::{Penalty, Solve, SolveError};
use std::time::Duration;

#[test]
fn valid_solve() {
    let solve = Solve::build(
        "R U R' U'".to_owned(),
        Some(Duration::from_secs(10)),
        None,
    );
    assert!(solve.is_ok());
}

#[test]
fn valid_solve_with_penalty() {
    let solve = Solve::build(
        "R U R' U'".to_owned(),
        Some(Duration::from_secs(10)),
        Some(Penalty::Plus2),
    );
    assert!(solve.is_ok());
}

#[test]
fn valid_solve_dnf() {
    let solve = Solve::build("R U R' U'".to_string(), None, Some(Penalty::DNF));
    assert!(solve.is_ok());
}

#[test]
fn invalid_solve_time_with_dnf() {
    let solve = Solve::build(
        "R U R' U".to_owned(),
        Some(Duration::from_secs(10)),
        Some(Penalty::DNF),
    );
    assert!(matches!(solve, Err(SolveError::TimeWithDNF)));
}

#[test]
fn invalid_solve_no_time_with_plus2() {
    let solve = Solve::build("R U R' U".to_owned(), None, Some(Penalty::Plus2));
    assert!(matches!(solve, Err(SolveError::NoTimeWithoutDNF)));
}

#[test]
fn invalid_solve_no_time_without_penalty() {
    let solve = Solve::build("R U R' U".to_owned(), None, None);
    assert!(matches!(solve, Err(SolveError::NoTimeWithoutDNF)));
}

#[test]
fn solve_keeps_what_it_was_built_from() {
    let solve = Solve::build(
        "R U R' U'".to_owned(),
        Some(Duration::from_millis(9870)),
        Some(Penalty::Plus2),
    )
    .unwrap();
    assert_eq!(solve.scramble(), "R U R' U'");
    assert_eq!(*solve.time(), Some(Duration::from_millis(9870)));
    assert_eq!(*solve.penalty(), Some(Penalty::Plus2));

    let solve = Solve::build("F2 D".to_owned(), None, Some(Penalty::DNF)).unwrap();
    assert_eq!(solve.scramble(), "F2 D");
    assert_eq!(*solve.time(), None);
    assert_eq!(*solve.penalty(), Some(Penalty::DNF));

    let solve = Solve::build(String::new(), Some(Duration::ZERO), None).unwrap();
    assert_eq!(solve.scramble(), "");
    assert_eq!(*solve.time(), Some(Duration::ZERO));
    assert_eq!(*solve.penalty(), None);
}

#[test]
fn solve_errors_say_what_is_wrong() {
    assert_eq!(
        SolveError::TimeWithDNF.message(),
        "Time must be None when penalty is DNF"
    );
    assert_eq!(
        SolveError::NoTimeWithoutDNF.message(),
        "Time cannot be None unless penalty is DNF"
    );
    assert_eq!(SolveError::TimeWithDNF.description(), "solve time but is DNF");
    assert_eq!(
        SolveError::NoTimeWithoutDNF.description(),
        "missing solve time and is not DNF"
    );
}
