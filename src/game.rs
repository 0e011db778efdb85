//! The guessing loop as a state machine. A game holds a secret target in
//! `[LOW, HIGH)` that never changes; each line of input is read as a guess
//! and compared with it, until a guess equals the target or the input ends.
use crate::parse::{guess_value, is_blank, parse_guess, ParseError};
use rand::Rng;
use std::cmp::Ordering;
use vstd::prelude::*;

verus! {

/// The smallest target that a game draws.
pub const LOW: u32 = 1;

/// One past the largest target that a game draws.
pub const HIGH: u32 = 101;

pub open spec fn valid_target(t: u32) -> bool {
    LOW <= t && t < HIGH
}

/// Where a game stands.
#[derive(Clone, Copy, Debug, PartialEq, Eq, Structural)]
pub enum Phase {
    /// Waiting for the next line of input.
    Playing,
    /// A guess equalled the target.
    Won,
    /// The input ended, or could not be read, before the target was found.
    InputFailed,
}

/// What a game answers to one line of input, or to its absence.
#[derive(Clone, Copy, Debug)]
pub enum Reply {
    /// The line held no valid guess; the game asks for another.
    Invalid(ParseError),
    /// The line held this guess, which compares so with the target.
    Compared(u32, Ordering),
    /// No line could be read.
    Closed,
}

/// How `guess` compares with `target`.
pub open spec fn ordering_of(guess: u32, target: u32) -> Ordering {
    if guess < target {
        Ordering::Less
    } else if guess > target {
        Ordering::Greater
    } else {
        Ordering::Equal
    }
}

/// The reply to a line that was read as `parsed`.
pub open spec fn reply_to(target: u32, parsed: Result<u32, ParseError>) -> Reply {
    match parsed {
        Ok(g) => Reply::Compared(g, ordering_of(g, target)),
        Err(e) => Reply::Invalid(e),
    }
}

/// The reply to a line of input, `None` standing for input that ended.
pub open spec fn reply_to_line(target: u32, line: Option<Seq<char>>) -> Reply {
    match line {
        Some(l) => reply_to(target, guess_value(l)),
        None => Reply::Closed,
    }
}

/// The phase that a reply leaves a playing game in.
pub open spec fn phase_after(r: Reply) -> Phase {
    match r {
        Reply::Compared(_, Ordering::Equal) => Phase::Won,
        Reply::Closed => Phase::InputFailed,
        _ => Phase::Playing,
    }
}

/// The process exit status that a phase calls for: none while playing,
/// zero after a win, one after the input failed.
pub open spec fn exit_code_of(p: Phase) -> Option<i32> {
    match p {
        Phase::Playing => None,
        Phase::Won => Some(0),
        Phase::InputFailed => Some(1),
    }
}

/// The abstract state of a game.
pub struct GameState {
    pub target: u32,
    pub phase: Phase,
}

pub open spec fn start(target: u32) -> GameState {
    GameState { target, phase: Phase::Playing }
}

/// The state after a playing game gave reply `r`: the target stays.
pub open spec fn next_state(s: GameState, r: Reply) -> GameState {
    GameState { target: s.target, phase: phase_after(r) }
}

/// The state after a game takes each input in turn, stopping once it is no
/// longer playing.
pub open spec fn run(s: GameState, inputs: Seq<Option<Seq<char>>>) -> GameState
    decreases inputs.len(),
{
    if inputs.len() == 0 || s.phase != Phase::Playing {
        s
    } else {
        run(next_state(s, reply_to_line(s.target, inputs[0])), inputs.drop_first())
    }
}

pub open spec fn line_view(line: Option<&str>) -> Option<Seq<char>> {
    match line {
        Some(l) => Some(l@),
        None => None,
    }
}

/// Relies on `rand::thread_rng` and `rand::Rng::gen_range(low, high)`: a
/// value in `[low, high)`; `gen_range` panics when `low >= high`.
#[verifier::external_body]
fn random_in(low: u32, high: u32) -> (r: u32)
    requires
        low < high,
    ensures
        low <= r < high,
{
    rand::thread_rng().gen_range(low, high)
}

/// Compares a guess with the target.
pub fn compare(guess: u32, target: u32) -> (r: Ordering)
    ensures
        r == ordering_of(guess, target),
{
    guess.cmp(&target)
}

/// One game of guessing the number.
pub struct Game {
    target: u32,
    phase: Phase,
}

impl View for Game {
    type V = GameState;

    closed spec fn view(&self) -> GameState {
        GameState { target: self.target, phase: self.phase }
    }
}

impl Game {
    pub open spec fn wf(&self) -> bool {
        valid_target(self@.target)
    }

    /// A new game, playing, with a target drawn at random from `[LOW, HIGH)`.
    pub fn new() -> (g: Game)
        ensures
            g.wf(),
            g@.phase == Phase::Playing,
    {
        Game { target: random_in(LOW, HIGH), phase: Phase::Playing }
    }

    /// A new game, playing, with the given target.
    pub fn with_target(target: u32) -> (g: Game)
        requires
            valid_target(target),
        ensures
            g@ == start(target),
    {
        Game { target, phase: Phase::Playing }
    }

    pub fn target(&self) -> (r: u32)
        ensures
            r == self@.target,
    {
        self.target
    }

    pub fn phase(&self) -> (r: Phase)
        ensures
            r == self@.phase,
    {
        self.phase
    }

    /// The exit status that the game calls for, once it is over.
    pub fn exit_code(&self) -> (r: Option<i32>)
        ensures
            r == exit_code_of(self@.phase),
    {
        match self.phase {
            Phase::Playing => None,
            Phase::Won => Some(0),
            Phase::InputFailed => Some(1),
        }
    }

    /// Answers a line that was read as `parsed`: an invalid line leaves the
    /// game as it was; a guess equal to the target wins it.
    pub fn answer(&mut self, parsed: Result<u32, ParseError>) -> (r: Reply)
        requires
            old(self)@.phase == Phase::Playing,
        ensures
            r == reply_to(old(self)@.target, parsed),
            final(self)@ == next_state(old(self)@, r),
    {
        match parsed {
            Err(e) => Reply::Invalid(e),
            Ok(g) => {
                let o = compare(g, self.target);
                if let Ordering::Equal = o {
                    self.phase = Phase::Won;
                }
                Reply::Compared(g, o)
            },
        }
    }

    /// Takes one line of input, or `None` where the input ended or failed,
    /// which ends the game.
    pub fn step(&mut self, line: Option<&str>) -> (r: Reply)
        requires
            old(self)@.phase == Phase::Playing,
        ensures
            r == reply_to_line(old(self)@.target, line_view(line)),
            final(self)@ == next_state(old(self)@, r),
            line matches Some(l) && is_blank(l@) ==> r == Reply::Invalid(ParseError::Empty),
    {
        match line {
            Some(l) => {
                let parsed = parse_guess(l);
                self.answer(parsed)
            },
            None => {
                self.phase = Phase::InputFailed;
                Reply::Closed
            },
        }
    }
}

} // verus!
