use vstd::prelude::*;
use crate::host::{Host, Sessions};
use crate::{Context, Play, Step, Turn};

verus! {

/// Where a run stands between two resumes.
pub enum Phase<S> {
    /// The body has not been entered yet.
    NotStarted,
    /// The body is suspended and resumes at this stage.
    Awaiting(S),
    /// The body has returned its outcome.
    Completed,
}

/// One step of a run from `phase`, on `game`, resumed with `input`: the game
/// afterwards, the phase afterwards, and what the driver gets back. The input
/// of the first resume has no suspension to go to and is dropped.
pub open spec fn run_step<G: Play>(game: G, phase: Phase<G::Stage>, input: G::Input) -> (
    G,
    Phase<G::Stage>,
    Step<<G::Event as View>::V, G::Outcome>,
) {
    let (g, t) = match phase {
        Phase::Awaiting(at) => G::advance(game, at, input),
        _ => G::opening(game),
    };
    let (p, step) = turn_end(t);
    (g, p, step)
}

/// The phase a run reaches when its body ends a step with `t`, and what the
/// driver gets back.
pub open spec fn turn_end<S, E, O>(t: Turn<S, E, O>) -> (Phase<S>, Step<E, O>) {
    match t {
        Turn::Suspend(s) => (Phase::Awaiting(s.stage()), Step::Yielded(s.event())),
        Turn::Finish(o) => (Phase::Completed, Step::Complete(o)),
    }
}

/// The game, the phase and the steps after resuming a run from `phase`
/// with each of `inputs` in turn, stopping once the run is complete.
pub open spec fn run_trace<G: Play>(game: G, phase: Phase<G::Stage>, inputs: Seq<G::Input>) -> (
    G,
    Phase<G::Stage>,
    Seq<Step<<G::Event as View>::V, G::Outcome>>,
)
    decreases inputs.len(),
{
    if inputs.len() == 0 || phase is Completed {
        (game, phase, Seq::empty())
    } else {
        let (g, p, step) = run_step(game, phase, inputs[0]);
        let (g2, p2, rest) = run_trace(g, p, inputs.drop_first());
        (g2, p2, seq![step] + rest)
    }
}

/// A run of a game: the suspendable computation from the start of its body
/// to its outcome, driven by `resume`.
pub struct Run<G: Play> {
    ctx: Context,
    phase: Phase<G::Stage>,
}

impl<G: Play> Run<G> {
    /// The host of the session this run plays on.
    pub closed spec fn host(&self) -> Host {
        self.ctx.host
    }

    pub closed spec fn phase(&self) -> Phase<G::Stage> {
        self.phase
    }

    /// A run on `host`'s session that has not been entered yet.
    pub(crate) fn new(host: Host) -> (r: Self)
        ensures
            r.host() == host,
            r.phase() is NotStarted,
    {
        Run { ctx: Context { host }, phase: Phase::NotStarted }
    }

    /// Enters the body of a run that has not started: it runs up to its first
    /// suspension, whose event is handed back, or to its end.
    pub fn start(&mut self, sessions: &mut Sessions<G>) -> (r: Step<G::Event, G::Outcome>)
        requires
            old(self).phase() is NotStarted,
            old(sessions).is_free(old(self).host()),
        ensures
            final(self).host() == old(self).host(),
            final(sessions)@ == old(sessions).after_game(
                old(self).host(),
                G::opening(old(sessions).state(old(self).host()).game).0,
            ),
            (final(self).phase(), r@) == turn_end(G::opening(old(sessions).state(old(self).host()).game).1),
    {
        let t = G::play(&self.ctx, sessions);
        self.settle(t)
    }

    /// Records where the body stopped and turns that into the driver's step.
    fn settle(&mut self, t: Turn<G::Stage, G::Event, G::Outcome>) -> (r: Step<G::Event, G::Outcome>)
        ensures
            final(self).host() == old(self).host(),
            (final(self).phase(), r@) == turn_end(t@),
    {
        match t {
            Turn::Suspend(s) => {
                let (at, event) = s.into_parts();
                self.phase = Phase::Awaiting(at);
                Step::Yielded(event)
            },
            Turn::Finish(o) => {
                self.phase = Phase::Completed;
                Step::Complete(o)
            },
        }
    }

    /// Resumes the run with `input`: the body runs up to its next suspension,
    /// whose event is handed back, or to its end, whose outcome is handed back.
    /// On a run not started yet this is `start`, and `input` is dropped. A
    /// completed run cannot be resumed.
    pub fn resume(&mut self, sessions: &mut Sessions<G>, input: G::Input) -> (r: Step<G::Event, G::Outcome>)
        requires
            !(old(self).phase() is Completed),
            old(sessions).is_free(old(self).host()),
        ensures
            final(self).host() == old(self).host(),
            final(sessions)@ == old(sessions).after_game(
                old(self).host(),
                run_step(old(sessions).state(old(self).host()).game, old(self).phase(), input).0,
            ),
            final(self).phase() == run_step(
                old(sessions).state(old(self).host()).game,
                old(self).phase(),
                input,
            ).1,
            r@ == run_step(old(sessions).state(old(self).host()).game, old(self).phase(), input).2,
    {
        let mut phase = Phase::Completed;
        std::mem::swap(&mut phase, &mut self.phase);
        if let Phase::Awaiting(at) = phase {
            let t = G::resume(&self.ctx, sessions, at, input);
            self.settle(t)
        } else {
            self.phase = Phase::NotStarted;
            self.start(sessions)
        }
    }
}

} // verus!
