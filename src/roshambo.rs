use vstd::prelude::*;
use vstd::string::StringExecFns;
use crate::host::Sessions;
use crate::{Context, Play, React, Turn};

verus! {

/// What a player of `RoShamBo` shows.
#[derive(Clone, Copy, Debug, PartialEq, Eq, Structural)]
pub enum Choice {
    /// Beats `Scissors`, loses to `Paper`.
    Rock,
    /// Beats `Rock`, loses to `Scissors`.
    Paper,
    /// Beats `Paper`, loses to `Rock`.
    Scissors,
}

/// How a game of `RoShamBo` ended, for player 1.
#[derive(Clone, Copy, Debug, PartialEq, Eq, Structural)]
pub enum Outcome {
    /// Both players showed the same choice.
    Tie,
    /// Player 1's choice beats player 2's.
    Win,
    /// Player 2's choice beats player 1's.
    Loss,
}

/// A message announced during a game of `RoShamBo`.
#[derive(Debug, PartialEq, Eq)]
pub struct Msg(pub String);

impl View for Msg {
    type V = Seq<char>;

    open spec fn view(&self) -> Seq<char> {
        self.0@
    }
}

/// Rock, paper, scissors: player 1's choice and player 2's choice.
#[derive(Clone, Copy, Debug)]
pub struct RoShamBo(pub Choice, pub Choice);

/// Where a game of `RoShamBo` stands after each announcement.
pub enum Countdown {
    /// "Ro!" was announced.
    Sham,
    /// "Sham!" was announced.
    Bo,
    /// "Bo!" was announced; the choices are revealed next.
    Reveal,
    /// The result was announced; the game ends with this outcome.
    Over(Outcome),
}

/// `a` beats `b` in the cycle rock, scissors, paper.
pub open spec fn beats(a: Choice, b: Choice) -> bool {
    match (a, b) {
        (Choice::Rock, Choice::Scissors) => true,
        (Choice::Paper, Choice::Rock) => true,
        (Choice::Scissors, Choice::Paper) => true,
        _ => false,
    }
}

/// The outcome for player 1 when the players show `p1` and `p2`.
pub open spec fn outcome_of(p1: Choice, p2: Choice) -> Outcome {
    if p1 == p2 {
        Outcome::Tie
    } else if beats(p1, p2) {
        Outcome::Win
    } else {
        Outcome::Loss
    }
}

pub open spec fn name_of(c: Choice) -> Seq<char> {
    match c {
        Choice::Rock => "Rock"@,
        Choice::Paper => "Paper"@,
        Choice::Scissors => "Scissors"@,
    }
}

/// The announcement of the result when the players show `p1` and `p2`.
pub open spec fn message_of(p1: Choice, p2: Choice) -> Seq<char> {
    match outcome_of(p1, p2) {
        Outcome::Tie => name_of(p1) + " ties with "@ + name_of(p2) + "."@,
        Outcome::Win => name_of(p1) + " beats "@ + name_of(p2) + "."@,
        Outcome::Loss => name_of(p2) + " beats "@ + name_of(p1) + "."@,
    }
}

impl Choice {
    /// The name of the choice.
    pub fn name(self) -> (r: &'static str)
        ensures
            r@ == name_of(self),
    {
        match self {
            Choice::Rock => "Rock",
            Choice::Paper => "Paper",
            Choice::Scissors => "Scissors",
        }
    }

    /// The outcome for the player showing `self` against one showing `other`.
    pub fn against(self, other: Choice) -> (r: Outcome)
        ensures
            r == outcome_of(self, other),
    {
        match (self, other) {
            (Choice::Rock, Choice::Scissors) | (Choice::Paper, Choice::Rock) | (
                Choice::Scissors,
                Choice::Paper,
            ) => Outcome::Win,
            (Choice::Rock, Choice::Paper) | (Choice::Paper, Choice::Scissors) | (
                Choice::Scissors,
                Choice::Rock,
            ) => Outcome::Loss,
            _ => Outcome::Tie,
        }
    }
}

/// The announcement of the result when the players show `p1` and `p2`.
pub fn result_message(p1: Choice, p2: Choice) -> (m: Msg)
    ensures
        m@ == message_of(p1, p2),
{
    let (first, verb, second) = match p1.against(p2) {
        Outcome::Tie => (p1, " ties with ", p2),
        Outcome::Win => (p1, " beats ", p2),
        Outcome::Loss => (p2, " beats ", p1),
    };
    let mut text = String::from_str(first.name());
    text.append(verb);
    text.append(second.name());
    text.append(".");
    Msg(text)
}

impl React for RoShamBo {
    type Event = Msg;

    open spec fn react(game: Self, event: Msg) -> (Self, Msg) {
        (game, event)
    }

    /// Nothing to do: the announcements change nothing in the game.
    fn handle_event(&mut self, event: &mut Msg) {
    }
}

impl Play for RoShamBo {
    type Input = ();
    type Outcome = Outcome;
    type Stage = Countdown;

    open spec fn opening(game: Self) -> (Self, Turn<Countdown, Seq<char>, Outcome>) {
        (game, Turn::yielded(Countdown::Sham, "Ro!"@))
    }

    open spec fn advance(game: Self, at: Countdown, input: ()) -> (Self, Turn<Countdown, Seq<char>, Outcome>) {
        match at {
            Countdown::Sham => (game, Turn::yielded(Countdown::Bo, "Sham!"@)),
            Countdown::Bo => (game, Turn::yielded(Countdown::Reveal, "Bo!"@)),
            Countdown::Reveal => (
                game,
                Turn::yielded(Countdown::Over(outcome_of(game.0, game.1)), message_of(game.0, game.1)),
            ),
            Countdown::Over(o) => (game, Turn::Finish(o)),
        }
    }

    fn play(ctx: &Context, sessions: &mut Sessions<Self>) -> (t: Turn<Countdown, Msg, Outcome>) {
        ctx.yield_event(sessions, Msg(String::from_str("Ro!")), Countdown::Sham)
    }

    fn resume(ctx: &Context, sessions: &mut Sessions<Self>, at: Countdown, input: ()) -> (t: Turn<
        Countdown,
        Msg,
        Outcome,
    >) {
        match at {
            Countdown::Sham => ctx.yield_event(sessions, Msg(String::from_str("Sham!")), Countdown::Bo),
            Countdown::Bo => ctx.yield_event(sessions, Msg(String::from_str("Bo!")), Countdown::Reveal),
            Countdown::Reveal => {
                let RoShamBo(p1, p2) = ctx.host.game(sessions);
                let outcome = p1.against(p2);
                ctx.yield_event(sessions, result_message(p1, p2), Countdown::Over(outcome))
            },
            Countdown::Over(o) => Turn::Finish(o),
        }
    }
}

} // verus!
