//! One session of the game: a target, fixed when the session begins, and
//! the state machine that lines of input drive.
//!
//! [`Game`] is the mathematical model: a target and a state, with the
//! transitions as spec functions. [`Session`] is the executable session; its
//! view is a [`Game`], and each of its methods is stated as one of the
//! model's transitions.
//!
//! A line is read only while the session awaits input, and a guess is
//! evaluated only while one is held; whatever else reaches a session leaves
//! it as it is. An input source that has run dry reads as an empty line,
//! which is malformed like any other: the session goes on awaiting input.

use vstd::prelude::*;
use crate::input::{parse_guess, parsed_guess};
use crate::outcome::{judge, outcome_of, Outcome};
use crate::target::{generate_target, in_target_range, is_target};

verus! {

/// The states of a session.
#[derive(Clone, Copy, Debug, PartialEq, Eq, Structural)]
pub enum State {
    /// The session waits for a line of input. Every session begins here.
    AwaitingInput,
    /// A line held a guess, which has yet to be held against the target.
    Evaluating { guess: u32 },
    /// The target was guessed. Nothing leads out of this state.
    Won,
}

/// What one line of input came to.
#[derive(Clone, Copy, Debug, PartialEq, Eq, Structural)]
pub enum Reply {
    /// The line was passed over without a word: it was malformed, or the
    /// session was not awaiting input.
    Ignored,
    /// The line held `guess`, which stands to the target as `outcome` says.
    Judged { guess: u32, outcome: Outcome },
}

/// The model of a session: its target and its state.
pub struct Game {
    pub target: u32,
    pub state: State,
}

impl Game {
    /// A game that has just begun.
    pub open spec fn fresh(target: u32) -> Game {
        Game { target, state: State::AwaitingInput }
    }

    /// Whether the target lies in the range that targets are drawn from.
    pub open spec fn valid(self) -> bool {
        in_target_range(self.target)
    }

    /// Whether the game is over.
    pub open spec fn won(self) -> bool {
        self.state is Won
    }

    /// The game after `line` was read. While input is awaited, a line that
    /// holds a guess leads on to its evaluation and a malformed one changes
    /// nothing; in any other state no line is read.
    pub open spec fn accept(self, line: Seq<char>) -> Game {
        match (self.state, parsed_guess(line)) {
            (State::AwaitingInput, Some(guess)) => Game {
                target: self.target,
                state: State::Evaluating { guess },
            },
            _ => self,
        }
    }

    /// The guess that reading `line` hands to evaluation, if any.
    pub open spec fn accepted(self, line: Seq<char>) -> Option<u32> {
        if self.state is AwaitingInput {
            parsed_guess(line)
        } else {
            None
        }
    }

    /// The outcome of the guess that is held for evaluation, if one is.
    pub open spec fn pending(self) -> Option<Outcome> {
        match self.state {
            State::Evaluating { guess } => Some(outcome_of(guess, self.target)),
            _ => None,
        }
    }

    /// The game after the guess that was held has been evaluated: won where
    /// it is the target, awaiting input again where it is not. A game that
    /// holds no guess stays as it is.
    pub open spec fn evaluate(self) -> Game {
        match self.state {
            State::Evaluating { guess } => Game {
                target: self.target,
                state: if guess == self.target {
                    State::Won
                } else {
                    State::AwaitingInput
                },
            },
            _ => self,
        }
    }

    /// The game after one turn of the loop on `line`: the line is read and,
    /// where it holds a guess, the guess is evaluated at once.
    pub open spec fn submit(self, line: Seq<char>) -> Game {
        if self.state is AwaitingInput {
            self.accept(line).evaluate()
        } else {
            self
        }
    }

    /// What one turn of the loop on `line` reports.
    pub open spec fn reply(self, line: Seq<char>) -> Reply {
        match self.accepted(line) {
            Some(guess) => Reply::Judged { guess, outcome: outcome_of(guess, self.target) },
            None => Reply::Ignored,
        }
    }

    /// The game after the loop has run on `lines`, one turn for each in
    /// order, for as long as input is awaited: the lines behind a winning
    /// guess are never read.
    pub open spec fn play(self, lines: Seq<Seq<char>>) -> Game
        decreases lines.len(),
    {
        if lines.len() == 0 || !(self.state is AwaitingInput) {
            self
        } else {
            self.submit(lines.first()).play(lines.drop_first())
        }
    }

    /// What the loop reports while it runs on `lines`: one reply for each
    /// line that is read.
    pub open spec fn replies(self, lines: Seq<Seq<char>>) -> Seq<Reply>
        decreases lines.len(),
    {
        if lines.len() == 0 || !(self.state is AwaitingInput) {
            Seq::empty()
        } else {
            seq![self.reply(lines.first())] + self.submit(lines.first()).replies(
                lines.drop_first(),
            )
        }
    }
}

/// A session of the game. Its target always lies in the range that targets
/// are drawn from, and never changes.
#[derive(Debug)]
pub struct Session {
    target: u32,
    state: State,
}

impl View for Session {
    type V = Game;

    closed spec fn view(&self) -> Game {
        Game { target: self.target, state: self.state }
    }
}

impl Session {
    #[verifier::type_invariant]
    spec fn target_in_range(self) -> bool {
        in_target_range(self.target)
    }

    /// Begins a session on a target drawn at random.
    pub fn start() -> (session: Session)
        ensures
            session@.valid(),
            session@ == Game::fresh(session@.target),
    {
        let target = generate_target();
        Session { target, state: State::AwaitingInput }
    }

    /// Begins a session on the given target, which must be one that could
    /// have been drawn: any other is refused.
    pub fn with_target(target: u32) -> (session: Option<Session>)
        ensures
            session is Some <==> in_target_range(target),
            session matches Some(s) ==> s@ == Game::fresh(target),
    {
        if is_target(target) {
            Some(Session { target, state: State::AwaitingInput })
        } else {
            None
        }
    }

    /// The target of this session.
    pub fn target(&self) -> (target: u32)
        ensures
            target == self@.target,
            in_target_range(target),
    {
        proof {
            use_type_invariant(self);
        }
        self.target
    }

    /// The state that this session is in.
    pub fn state(&self) -> (state: State)
        ensures
            state == self@.state,
    {
        self.state
    }

    /// Whether the target has been guessed.
    pub fn is_won(&self) -> (won: bool)
        ensures
            won == self@.won(),
    {
        match self.state {
            State::Won => true,
            _ => false,
        }
    }

    /// Whether the session waits for a line of input.
    pub fn is_awaiting_input(&self) -> (awaiting: bool)
        ensures
            awaiting == (self@.state is AwaitingInput),
    {
        match self.state {
            State::AwaitingInput => true,
            _ => false,
        }
    }

    /// Reads one line of input and returns the guess that it hands to
    /// evaluation, if any.
    pub fn accept_line(&mut self, line: &str) -> (guess: Option<u32>)
        ensures
            final(self)@ == old(self)@.accept(line@),
            guess == old(self)@.accepted(line@),
    {
        proof {
            use_type_invariant(&*self);
        }
        match self.state {
            State::AwaitingInput => {
                let guess = parse_guess(line);
                if let Some(g) = guess {
                    self.state = State::Evaluating { guess: g };
                }
                guess
            },
            _ => None,
        }
    }

    /// Holds the guess that was read against the target and returns the
    /// outcome, or `None` where no guess is held.
    pub fn evaluate(&mut self) -> (outcome: Option<Outcome>)
        ensures
            final(self)@ == old(self)@.evaluate(),
            outcome == old(self)@.pending(),
    {
        proof {
            use_type_invariant(&*self);
        }
        match self.state {
            State::Evaluating { guess } => {
                let outcome = judge(guess, self.target);
                if outcome.is_win() {
                    self.state = State::Won;
                } else {
                    self.state = State::AwaitingInput;
                }
                Some(outcome)
            },
            _ => None,
        }
    }

    /// Takes one turn of the loop on `line`.
    pub fn submit(&mut self, line: &str) -> (reply: Reply)
        ensures
            final(self)@ == old(self)@.submit(line@),
            reply == old(self)@.reply(line@),
    {
        match self.accept_line(line) {
            Some(guess) => match self.evaluate() {
                Some(outcome) => Reply::Judged { guess, outcome },
                None => Reply::Ignored,
            },
            None => Reply::Ignored,
        }
    }

    /// Runs the loop on `lines`: one turn for each line in order, for as long
    /// as the session awaits input. Returns the reply to each line read; the
    /// lines behind a winning guess are left unread.
    pub fn play(&mut self, lines: &Vec<String>) -> (replies: Vec<Reply>)
        ensures
            final(self)@ == old(self)@.play(lines.deep_view()),
            replies@ == old(self)@.replies(lines.deep_view()),
    {
        let ghost all = lines.deep_view();
        let ghost begun = self@;
        let mut replies: Vec<Reply> = Vec::new();
        let mut i: usize = 0;
        assert(all.skip(0) =~= all);
        while i < lines.len() && self.is_awaiting_input()
            invariant
                all == lines.deep_view(),
                0 <= i <= lines.len(),
                begun.play(all) == self@.play(all.skip(i as int)),
                begun.replies(all) == replies@ + self@.replies(all.skip(i as int)),
            decreases lines.len() - i,
        {
            assert(all.skip(i as int).drop_first() =~= all.skip(i + 1));
            let reply = self.submit(lines[i].as_str());
            replies.push(reply);
            i = i + 1;
        }
        replies
    }
}

} // verus!
