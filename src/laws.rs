//! What holds of every game, over the model in `game`.
use crate::game::{
    exit_code_of, next_state, ordering_of, phase_after, reply_to, reply_to_line, run, start,
    valid_target, GameState, Phase, Reply,
};
use crate::parse::{guess_value, trimmed, ParseError};
use std::cmp::Ordering;
use vstd::prelude::*;

verus! {

/// Lines of input that each hold no valid guess.
pub open spec fn all_invalid(lines: Seq<Option<Seq<char>>>) -> bool {
    forall|i: int|
        0 <= i < lines.len() ==> (#[trigger] lines[i] matches Some(l) && guess_value(l) is Err)
}

/// A line that holds no valid guess is answered with a diagnostic and leaves
/// the game as it was, so the next line is taken as though it came first.
pub proof fn invalid_line_is_retried(s: GameState, line: Seq<char>, rest: Seq<Option<Seq<char>>>)
    requires
        s.phase == Phase::Playing,
        guess_value(line) is Err,
    ensures
        reply_to_line(s.target, Some(line)) is Invalid,
        next_state(s, reply_to_line(s.target, Some(line))) == s,
        run(s, seq![Some(line)] + rest) == run(s, rest),
{
    assert((seq![Some(line)] + rest).drop_first() =~= rest);
}

/// Any number of invalid lines in a row leave no trace: the game goes on
/// from the first valid line as though they had not been typed.
pub proof fn invalid_lines_leave_no_trace(
    s: GameState,
    bad: Seq<Option<Seq<char>>>,
    rest: Seq<Option<Seq<char>>>,
)
    requires
        s.phase == Phase::Playing,
        all_invalid(bad),
    ensures
        run(s, bad + rest) == run(s, rest),
    decreases bad.len(),
{
    if bad.len() > 0 {
        assert(bad[0] matches Some(l) && guess_value(l) is Err);
        assert(all_invalid(bad.drop_first()));
        invalid_lines_leave_no_trace(s, bad.drop_first(), rest);
        assert((bad + rest).drop_first() =~= bad.drop_first() + rest);
    } else {
        assert(bad + rest =~= rest);
    }
}

/// For every target in range, the first valid guess that equals it wins the
/// game, whatever invalid lines came before, and the game then calls for
/// exit status zero.
pub proof fn matching_guess_wins(n: u32, bad: Seq<Option<Seq<char>>>, line: Seq<char>)
    requires
        valid_target(n),
        all_invalid(bad),
        guess_value(line) == Ok::<u32, ParseError>(n),
    ensures
        reply_to_line(n, Some(line)) == Reply::Compared(n, Ordering::Equal),
        run(start(n), bad.push(Some(line))) == (GameState { target: n, phase: Phase::Won }),
        exit_code_of(Phase::Won) == Some(0i32),
{
    let last = seq![Some(line)];
    invalid_lines_leave_no_trace(start(n), bad, last);
    assert(bad.push(Some(line)) =~= bad + last);
    assert(last.drop_first() =~= Seq::<Option<Seq<char>>>::empty());
    let won = next_state(start(n), reply_to_line(n, Some(line)));
    assert(run(won, last.drop_first()) == won);
}

/// A guess in range that differs from the target is answered `Less` when it
/// is smaller and `Greater` when it is larger, and the game goes on.
pub proof fn wrong_guess_is_ordered(g: u32, target: u32)
    requires
        valid_target(g),
        valid_target(target),
        g != target,
    ensures
        g < target ==> reply_to(target, Ok(g)) == Reply::Compared(g, Ordering::Less),
        g > target ==> reply_to(target, Ok(g)) == Reply::Compared(g, Ordering::Greater),
        ordering_of(g, target) != Ordering::Equal,
        phase_after(reply_to(target, Ok(g))) == Phase::Playing,
{
}

/// A line that trims to nothing is an invalid guess, `Empty`.
pub proof fn blank_line_is_invalid(target: u32, line: Seq<char>)
    requires
        trimmed(line).len() == 0,
    ensures
        guess_value(line) == Err::<u32, ParseError>(ParseError::Empty),
        reply_to_line(target, Some(line)) == Reply::Invalid(ParseError::Empty),
{
    assert(vstd::utf8::encode_utf8(trimmed(line)).len() == 0);
}

/// When the input ends before the target is found, the game stops at once,
/// whatever would have followed, and calls for a non-zero exit status.
pub proof fn closed_input_fails(s: GameState, rest: Seq<Option<Seq<char>>>)
    requires
        s.phase == Phase::Playing,
    ensures
        reply_to_line(s.target, None) == Reply::Closed,
        run(s, seq![None] + rest).phase == Phase::InputFailed,
        exit_code_of(Phase::InputFailed) matches Some(c) && c != 0,
{
    let after = next_state(s, Reply::Closed);
    assert((seq![None] + rest).drop_first() =~= rest);
    assert(run(after, rest) == after);
}

} // verus!
