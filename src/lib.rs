use vstd::prelude::*;

pub mod host;
pub mod laws;
pub mod roshambo;
pub mod run;

pub use host::{GameMut, GameRef, Host, PlayError, Sessions, SharedState};
pub use run::{Phase, Run};

verus! {

/// A suspension point reached by a game's body: the stage at which the body
/// resumes, and the event handed to the driver. Only `Context::yield_event`
/// makes one, so every event that leaves a run has passed the reaction hook.
pub struct Suspension<S, E> {
    stage: S,
    event: E,
}

impl<S, E> Suspension<S, E> {
    pub closed spec fn spec_new(stage: S, event: E) -> Self {
        Suspension { stage, event }
    }

    pub closed spec fn stage(self) -> S {
        self.stage
    }

    pub closed spec fn event(self) -> E {
        self.event
    }

    /// A suspension made of `stage` and `event` holds them.
    pub proof fn lemma_fields(stage: S, event: E)
        ensures
            Self::spec_new(stage, event).stage() == stage,
            Self::spec_new(stage, event).event() == event,
    {
    }

    /// Splits the suspension into its stage and event.
    pub fn into_parts(self) -> (r: (S, E))
        ensures
            r == (self.stage(), self.event()),
    {
        (self.stage, self.event)
    }
}

impl<S, E: View> View for Suspension<S, E> {
    type V = Suspension<S, E::V>;

    closed spec fn view(&self) -> Suspension<S, E::V> {
        Suspension { stage: self.stage, event: self.event@ }
    }
}

/// What a game's body does next: suspend with an event, or finish with an outcome.
pub enum Turn<S, E, O> {
    Suspend(Suspension<S, E>),
    Finish(O),
}

impl<S, E: View, O> View for Turn<S, E, O> {
    type V = Turn<S, E::V, O>;

    open spec fn view(&self) -> Turn<S, E::V, O> {
        match self {
            Turn::Suspend(s) => Turn::Suspend(s@),
            Turn::Finish(o) => Turn::Finish(*o),
        }
    }
}

impl<S, E, O> Turn<S, E, O> {
    /// The turn that suspends at `stage` with `event`.
    pub open spec fn yielded(stage: S, event: E) -> Self {
        Turn::Suspend(Suspension::spec_new(stage, event))
    }
}

/// What one resume of a run hands back to the driver.
#[derive(Debug, PartialEq, Eq)]
pub enum Step<E, O> {
    /// The run suspended with this event and waits for the next input.
    Yielded(E),
    /// The run is over, with this outcome.
    Complete(O),
}

impl<E: View, O> View for Step<E, O> {
    type V = Step<E::V, O>;

    open spec fn view(&self) -> Step<E::V, O> {
        match self {
            Step::Yielded(e) => Step::Yielded(e@),
            Step::Complete(o) => Step::Complete(*o),
        }
    }
}

/// The reaction hook of a game: what it does with an event before the event
/// reaches the driver, or when one is replayed through `Host::process_event`.
pub trait React: Sized {
    /// Emitted at each suspension of a run.
    type Event: View;

    /// What the hook does to the game and to an event.
    spec fn react(game: Self, event: Self::Event) -> (Self, Self::Event);

    /// Reacts to `event`, and may change it.
    fn handle_event(&mut self, event: &mut Self::Event)
        ensures
            (*final(self), *final(event)) == Self::react(*old(self), *old(event)),
    ;
}

/// A game that can be run by a `Host`.
///
/// The body of a run is given as two steps: `play` runs from the start to the
/// first suspension, `resume` from a suspension to the next one. Each ends with
/// `Context::yield_event` or with `Turn::Finish`. The spec functions say what
/// each step does to the game and what it hands back, as functions of the game,
/// the stage and the input alone.
pub trait Play: React {
    /// Supplied by the driver on each resume.
    type Input;

    /// Returned when the run is over.
    type Outcome;

    /// Where the body stands between two suspensions.
    type Stage;

    /// The game after the first step from `game`, and the turn it ends with.
    spec fn opening(game: Self) -> (Self, Turn<Self::Stage, <Self::Event as View>::V, Self::Outcome>);

    /// The game after resuming at `at` with `input`, and the turn it ends with.
    spec fn advance(game: Self, at: Self::Stage, input: Self::Input) -> (
        Self,
        Turn<Self::Stage, <Self::Event as View>::V, Self::Outcome>,
    );

    /// Runs the body from the start to its first suspension, or to its end.
    fn play(ctx: &Context, sessions: &mut Sessions<Self>) -> (t: Turn<
        Self::Stage,
        Self::Event,
        Self::Outcome,
    >)
        requires
            old(sessions).is_free(ctx.host),
        ensures
            final(sessions)@ == old(sessions).after_game(
                ctx.host,
                Self::opening(old(sessions).state(ctx.host).game).0,
            ),
            t@ == Self::opening(old(sessions).state(ctx.host).game).1,
    ;

    /// Runs the body from the suspension at `at`, which the driver resumed with `input`.
    fn resume(ctx: &Context, sessions: &mut Sessions<Self>, at: Self::Stage, input: Self::Input) -> (t:
        Turn<Self::Stage, Self::Event, Self::Outcome>)
        requires
            old(sessions).is_free(ctx.host),
        ensures
            final(sessions)@ == old(sessions).after_game(
                ctx.host,
                Self::advance(old(sessions).state(ctx.host).game, at, input).0,
            ),
            t@ == Self::advance(old(sessions).state(ctx.host).game, at, input).1,
    ;
}

/// Handed to a game's body for one run: the host of the run's session.
pub struct Context {
    pub host: Host,
}

impl Context {
    /// Lets the game react to `event` under a transaction of its own, then
    /// suspends at `next`, handing the event as it then stands to the driver.
    pub fn yield_event<G: React, S, O>(&self, sessions: &mut Sessions<G>, event: G::Event, next: S) -> (t:
        Turn<S, G::Event, O>)
        requires
            old(sessions).is_free(self.host),
        ensures
            final(sessions)@ == old(sessions).after_event(self.host, event).0,
            t == Turn::<S, G::Event, O>::yielded(
                next,
                old(sessions).after_event(self.host, event).1,
            ),
            t@ == Turn::<S, <G::Event as View>::V, O>::yielded(
                next,
                old(sessions).after_event(self.host, event).1@,
            ),
    {
        let mut event = event;
        self.host.process_event(sessions, &mut event);
        Turn::Suspend(Suspension { stage: next, event })
    }

    /// `yield_event` with the event type's default value.
    pub fn yield_default<G: React, S, O>(&self, sessions: &mut Sessions<G>, next: S) -> (t: Turn<
        S,
        G::Event,
        O,
    >) where G::Event: Default
        requires
            old(sessions).is_free(self.host),
        ensures
            exists|event: G::Event|
                {
                    &&& call_ensures(G::Event::default, (), event)
                    &&& final(sessions)@ == old(sessions).after_event(self.host, event).0
                    &&& t == Turn::<S, G::Event, O>::yielded(
                        next,
                        old(sessions).after_event(self.host, event).1,
                    )
                },
    {
        let event = G::Event::default();
        self.yield_event(sessions, event, next)
    }
}

} // verus!
