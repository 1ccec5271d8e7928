//! What holds of every game, proved over the model of
//! [`Game`](crate::session::Game).

use vstd::prelude::*;
use crate::input::parsed_guess;
use crate::outcome::Outcome;
use crate::session::{Game, Reply, State};

verus! {

/// Whether every line of `lines` holds a guess strictly below `target`.
pub open spec fn all_below(lines: Seq<Seq<char>>, target: u32) -> bool {
    forall|i: int|
        0 <= i < lines.len() ==> (#[trigger] parsed_guess(lines[i]) matches Some(guess) && guess
            < target)
}

/// Whether every line of `lines` holds a guess strictly above `target`.
pub open spec fn all_above(lines: Seq<Seq<char>>, target: u32) -> bool {
    forall|i: int|
        0 <= i < lines.len() ==> (#[trigger] parsed_guess(lines[i]) matches Some(guess) && guess
            > target)
}

/// Whether every line of `lines` is malformed.
pub open spec fn all_malformed(lines: Seq<Seq<char>>) -> bool {
    forall|i: int| 0 <= i < lines.len() ==> #[trigger] parsed_guess(lines[i]) is None
}

/// Whether some line of `lines` holds exactly `target`.
pub open spec fn some_line_holds(lines: Seq<Seq<char>>, target: u32) -> bool {
    exists|i: int| 0 <= i < lines.len() && #[trigger] parsed_guess(lines[i]) == Some(target)
}

/// One reply for each line of `lines`, which says that the guess the line
/// holds met with `outcome`.
pub open spec fn each_judged(lines: Seq<Seq<char>>, outcome: Outcome) -> Seq<Reply> {
    Seq::new(lines.len(), |i: int| Reply::Judged { guess: parsed_guess(lines[i])->0, outcome })
}

/// One reply for each line of `lines`, which says that the line was passed
/// over.
pub open spec fn each_ignored(lines: Seq<Seq<char>>) -> Seq<Reply> {
    Seq::new(lines.len(), |i: int| Reply::Ignored)
}

/// The game on `target` that holds `guess` for evaluation.
pub open spec fn evaluating(target: u32, guess: u32) -> Game {
    Game { target, state: State::Evaluating { guess } }
}

/// The transitions of the machine, one by one. While input is awaited, a
/// malformed line leads nowhere and a line that holds a guess leads to its
/// evaluation. Evaluation leads back to awaiting input where the guess is
/// below or above the target, and to the win where it is the target.
pub proof fn lemma_transitions(target: u32, guess: u32, line: Seq<char>)
    ensures
        parsed_guess(line) is None ==> Game::fresh(target).accept(line) == Game::fresh(target),
        parsed_guess(line) == Some(guess) ==> Game::fresh(target).accept(line) == evaluating(
            target,
            guess,
        ),
        guess < target ==> evaluating(target, guess).pending() == Some(Outcome::Less),
        guess > target ==> evaluating(target, guess).pending() == Some(Outcome::Greater),
        guess == target ==> evaluating(target, guess).pending() == Some(Outcome::Equal),
        guess != target ==> evaluating(target, guess).evaluate() == Game::fresh(target),
        guess == target ==> evaluating(target, guess).evaluate().won(),
        evaluating(target, guess).evaluate().target == target,
{
}

/// The target of a game is fixed: no transition changes it, and so none
/// takes it out of the range it was drawn from.
pub proof fn lemma_target_is_fixed(game: Game, lines: Seq<Seq<char>>)
    ensures
        game.play(lines).target == game.target,
        game.valid() ==> game.play(lines).valid(),
        game.evaluate().target == game.target,
        forall|line: Seq<char>| #[trigger] game.accept(line).target == game.target,
        forall|line: Seq<char>| #[trigger] game.submit(line).target == game.target,
    decreases lines.len(),
{
    if lines.len() > 0 && game.state is AwaitingInput {
        lemma_target_is_fixed(game.submit(lines.first()), lines.drop_first());
    }
}

/// Nothing leads out of a game that is won: it reads no line, evaluates
/// nothing and reports nothing.
pub proof fn lemma_won_is_final(game: Game, lines: Seq<Seq<char>>)
    requires
        game.won(),
    ensures
        game.evaluate() == game,
        game.play(lines) == game,
        game.replies(lines) == Seq::<Reply>::empty(),
        forall|line: Seq<char>|
            #![trigger game.submit(line)]
            #![trigger game.accept(line)]
            #![trigger game.reply(line)]
            game.accept(line) == game && game.submit(line) == game && game.reply(line)
                == Reply::Ignored,
{
}

/// One turn of the loop, taken while input is awaited, ends awaiting input
/// again or in a win, and it ends in a win exactly when the line holds the
/// target.
pub proof fn lemma_turn_wins_on_target_only(target: u32, line: Seq<char>)
    ensures
        Game::fresh(target).submit(line).won() <==> parsed_guess(line) == Some(target),
        !Game::fresh(target).submit(line).won() ==> Game::fresh(target).submit(line)
            == Game::fresh(target),
{
}

/// A malformed line ends nothing and fails nothing: whatever state the game
/// is in, it stays there, and nothing is reported.
pub proof fn lemma_malformed_line_is_passed_over(game: Game, line: Seq<char>)
    requires
        parsed_guess(line) is None,
    ensures
        game.accept(line) == game,
        game.submit(line) == game,
        game.reply(line) == Reply::Ignored,
{
}

/// However many malformed lines come, the loop reads every one of them,
/// reports nothing, and still awaits input afterwards.
pub proof fn lemma_malformed_lines_never_end_the_loop(target: u32, lines: Seq<Seq<char>>)
    requires
        all_malformed(lines),
    ensures
        Game::fresh(target).play(lines) == Game::fresh(target),
        Game::fresh(target).replies(lines) == each_ignored(lines),
    decreases lines.len(),
{
    if lines.len() > 0 {
        lemma_malformed_lines_never_end_the_loop(target, lines.drop_first());
    }
}

/// However many guesses strictly below the target come, the loop reads
/// every one of them, reports each as too small, and still awaits input
/// afterwards.
pub proof fn lemma_low_guesses_never_end_the_loop(target: u32, lines: Seq<Seq<char>>)
    requires
        all_below(lines, target),
    ensures
        Game::fresh(target).play(lines) == Game::fresh(target),
        Game::fresh(target).replies(lines) == each_judged(lines, Outcome::Less),
        Outcome::Less.text() == "Too small!"@,
    decreases lines.len(),
{
    if lines.len() > 0 {
        lemma_low_guesses_never_end_the_loop(target, lines.drop_first());
    }
}

/// However many guesses strictly above the target come, the loop reads
/// every one of them, reports each as too big, and still awaits input
/// afterwards.
pub proof fn lemma_high_guesses_never_end_the_loop(target: u32, lines: Seq<Seq<char>>)
    requires
        all_above(lines, target),
    ensures
        Game::fresh(target).play(lines) == Game::fresh(target),
        Game::fresh(target).replies(lines) == each_judged(lines, Outcome::Greater),
        Outcome::Greater.text() == "Too big!"@,
    decreases lines.len(),
{
    if lines.len() > 0 {
        lemma_high_guesses_never_end_the_loop(target, lines.drop_first());
    }
}

/// The loop ends exactly when a guess equal to the target is supplied: the
/// game is won after `lines` if and only if one of them holds the target.
/// Until then it awaits input.
pub proof fn lemma_loop_ends_on_target_only(target: u32, lines: Seq<Seq<char>>)
    ensures
        Game::fresh(target).play(lines).won() <==> some_line_holds(lines, target),
        !some_line_holds(lines, target) ==> Game::fresh(target).play(lines) == Game::fresh(
            target,
        ) && Game::fresh(target).replies(lines).len() == lines.len(),
    decreases lines.len(),
{
    if lines.len() > 0 {
        let rest = lines.drop_first();
        if parsed_guess(lines[0]) == Some(target) {
            lemma_won_is_final(Game::fresh(target).submit(lines[0]), rest);
        } else {
            lemma_loop_ends_on_target_only(target, rest);
            if some_line_holds(lines, target) {
                let i = choose|i: int|
                    0 <= i < lines.len() && #[trigger] parsed_guess(lines[i]) == Some(target);
                assert(parsed_guess(rest[i - 1]) == Some(target));
            }
        }
    }
}

/// A turn taken while input is awaited never leaves a guess unevaluated:
/// the states the loop rests in are awaiting input and won.
pub proof fn lemma_loop_rests_awaiting_or_won(game: Game, lines: Seq<Seq<char>>)
    requires
        !(game.state is Evaluating),
    ensures
        game.play(lines).state == State::AwaitingInput || game.play(lines).state == State::Won,
    decreases lines.len(),
{
    if lines.len() > 0 && game.state is AwaitingInput {
        lemma_loop_rests_awaiting_or_won(game.submit(lines.first()), lines.drop_first());
    }
}

} // verus!
