//! A number-guessing game whose decisions are verified: a secret target in
//! `[1, 100]`, a parser for typed guesses, a three-way comparison, and a step
//! function that moves the game from one state to the next on each line of
//! input.
pub mod functions;
pub mod game;
pub mod laws;
pub mod parse;
