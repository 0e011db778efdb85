use guessing_game::functions::{function_with_return_values, plus_one};
use guessing_game::game::{compare, Game, Phase, Reply, HIGH, LOW};
use guessing_game::parse::ParseError;
use std::cmp::Ordering;

#[test]
fn compare_orders_guesses() {
    assert_eq!(compare(3, 50), Ordering::Less);
    assert_eq!(compare(80, 50), Ordering::Greater);
    assert_eq!(compare(50, 50), Ordering::Equal);
}

#[test]
fn every_pair_in_range_compares_by_size() {
    for target in 1u32..=100 {
        for g in 1u32..=100 {
            let expected = if g < target {
                Ordering::Less
            } else if g > target {
                Ordering::Greater
            } else {
                Ordering::Equal
            };
            assert_eq!(compare(g, target), expected);
            let mut game = Game::with_target(target);
            let r = game.step(Some(&format!("{}\n", g)));
            assert!(matches!(r, Reply::Compared(x, o) if x == g && o == expected));
        }
    }
}

#[test]
fn first_matching_guess_wins_for_every_target() {
    for n in 1u32..=100 {
        let mut game = Game::with_target(n);
        let r = game.step(Some(&format!("{}\n", n)));
        assert!(matches!(r, Reply::Compared(x, Ordering::Equal) if x == n));
        assert_eq!(game.phase(), Phase::Won);
        assert_eq!(game.exit_code(), Some(0));
    }
}

#[test]
fn wrong_guesses_keep_playing() {
    let mut game = Game::with_target(42);
    assert!(matches!(game.step(Some("10\n")), Reply::Compared(10, Ordering::Less)));
    assert!(matches!(game.step(Some("90\n")), Reply::Compared(90, Ordering::Greater)));
    assert_eq!(game.phase(), Phase::Playing);
    assert_eq!(game.exit_code(), None);
    assert_eq!(game.target(), 42);
}

#[test]
fn non_numeric_line_is_retried() {
    let mut game = Game::with_target(42);
    let r = game.step(Some("abc\n"));
    assert!(matches!(r, Reply::Invalid(ParseError::InvalidDigit)));
    assert_eq!(game.phase(), Phase::Playing);
    let r = game.step(Some("42\n"));
    assert!(matches!(r, Reply::Compared(42, Ordering::Equal)));
    assert_eq!(game.phase(), Phase::Won);
}

#[test]
fn empty_line_is_invalid_input() {
    let mut game = Game::with_target(7);
    assert!(matches!(game.step(Some("")), Reply::Invalid(ParseError::Empty)));
    assert!(matches!(game.step(Some("\n")), Reply::Invalid(ParseError::Empty)));
    assert_eq!(game.phase(), Phase::Playing);
}

#[test]
fn end_of_input_fails_the_game() {
    let mut game = Game::with_target(7);
    assert!(matches!(game.step(Some("3\n")), Reply::Compared(3, Ordering::Less)));
    assert!(matches!(game.step(None), Reply::Closed));
    assert_eq!(game.phase(), Phase::InputFailed);
    assert_eq!(game.exit_code(), Some(1));
}

#[test]
fn repeated_invalid_lines_leave_no_trace() {
    let mut game = Game::with_target(64);
    assert!(matches!(game.step(Some("x\n")), Reply::Invalid(ParseError::InvalidDigit)));
    assert!(matches!(game.step(Some("\n")), Reply::Invalid(ParseError::Empty)));
    assert!(matches!(game.step(Some("-5\n")), Reply::Invalid(ParseError::InvalidDigit)));
    assert!(matches!(
        game.step(Some("99999999999\n")),
        Reply::Invalid(ParseError::Overflow)
    ));
    assert_eq!(game.phase(), Phase::Playing);
    assert_eq!(game.target(), 64);
    assert!(matches!(game.step(Some("64\n")), Reply::Compared(64, Ordering::Equal)));
    assert_eq!(game.exit_code(), Some(0));
}

#[test]
fn answer_takes_parsed_guesses() {
    let mut game = Game::with_target(20);
    assert!(matches!(game.answer(Err(ParseError::Empty)), Reply::Invalid(ParseError::Empty)));
    assert!(matches!(game.answer(Ok(25)), Reply::Compared(25, Ordering::Greater)));
    assert_eq!(game.phase(), Phase::Playing);
    assert!(matches!(game.answer(Ok(20)), Reply::Compared(20, Ordering::Equal)));
    assert_eq!(game.phase(), Phase::Won);
}

#[test]
fn random_target_is_in_range() {
    for _ in 0..200 {
        let game = Game::new();
        assert!(game.target() >= LOW && game.target() < HIGH);
        assert_eq!(game.phase(), Phase::Playing);
    }
}

#[test]
fn small_functions_return_values() {
    assert_eq!(function_with_return_values(), 5);
    assert_eq!(plus_one(5), 6);
    assert_eq!(plus_one(-1), 0);
    assert_eq!(plus_one(i32::MAX - 1), i32::MAX);
}
