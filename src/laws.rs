use vstd::prelude::*;
use crate::host::{after_start, play_refusal, Host, PlayError, Sessions};
use crate::run::{run_step, run_trace, Phase};
use crate::{Play, React, Step, Turn};

verus! {

/// A run is reproducible: from equal games, the same inputs give the same
/// steps, the same final phase and the same final game.
pub proof fn lemma_run_reproducible<G: Play>(g1: G, g2: G, inputs: Seq<G::Input>)
    requires
        g1 == g2,
    ensures
        run_trace(g1, Phase::NotStarted, inputs) == run_trace(g2, Phase::NotStarted, inputs),
{
}

/// Resuming with `a` and then with `b` hands back what resuming with `a + b`
/// does: the steps of a run depend on each input in the order given, never
/// on inputs still to come.
pub proof fn lemma_run_in_order<G: Play>(game: G, phase: Phase<G::Stage>, a: Seq<G::Input>, b: Seq<G::Input>)
    ensures
        ({
            let (g1, p1, s1) = run_trace(game, phase, a);
            let (g2, p2, s2) = run_trace(g1, p1, b);
            run_trace(game, phase, a + b) == (g2, p2, s1 + s2)
        }),
    decreases a.len(),
{
    if a.len() == 0 {
        assert(a + b =~= b);
        let (g2, p2, s2) = run_trace(game, phase, b);
        assert(Seq::<Step<<G::Event as View>::V, G::Outcome>>::empty() + s2 =~= s2);
    } else if phase is Completed {
        let (g2, p2, s2) = run_trace(game, phase, b);
        assert(Seq::<Step<<G::Event as View>::V, G::Outcome>>::empty() + s2 =~= s2);
    } else {
        let (g, p, step) = run_step(game, phase, a[0]);
        lemma_run_in_order(g, p, a.drop_first(), b);
        assert((a + b).drop_first() =~= a.drop_first() + b);
        let (g1, p1, rest1) = run_trace(g, p, a.drop_first());
        let (g2, p2, s2) = run_trace(g1, p1, b);
        assert(seq![step] + rest1 + s2 =~= seq![step] + (rest1 + s2));
    }
}

/// While a transaction is open on a session, no other can open there,
/// through the same handle or any copy of it, and `play` reports `InUse`.
pub proof fn lemma_no_nested_transaction<G>(before: Sessions<G>, during: Sessions<G>, host: Host, other: Host)
    requires
        before.is_free(host),
        during@ == before@.update(host.id() as int, None),
        other == host,
    ensures
        !during.is_free(other),
        play_refusal(&during, other) == Some(PlayError::InUse),
{
}

/// Copies of a handle share the session: a game written through one is the
/// game read through the other, while a snapshot taken before keeps its value.
pub proof fn lemma_copies_share<G>(sessions: Sessions<G>, after: Sessions<G>, host: Host, other: Host, game: G)
    requires
        sessions.is_free(host),
        after@ == sessions.after_game(host, game),
        other == host,
    ensures
        after.is_free(other),
        after.state(other).game == game,
        after.state(other).started == sessions.state(host).started,
{
}

/// An event replayed through `Host::process_event` changes the game exactly as
/// the same event does when a run yields it, and the driver receives the
/// event that `process_event` leaves behind.
pub proof fn lemma_replay_matches_yield<G: React, S, O>(sessions: Sessions<G>, host: Host, event: G::Event, next: S)
    requires
        sessions.is_free(host),
    ensures
        ({
            let (store, out) = sessions.after_event(host, event);
            let t = Turn::<S, G::Event, O>::yielded(next, out);
            &&& store == sessions.after_game(host, G::react(sessions.state(host).game, event).0)
            &&& t is Suspend
            &&& t->Suspend_0.event() == out
            &&& t->Suspend_0.stage() == next
        }),
{
    crate::Suspension::<S, G::Event>::lemma_fields(next, sessions.after_event(host, event).1);
}

/// A session runs at most once: after `play` has started it, every later
/// `play` is refused with `AlreadyStarted` while no transaction is open.
pub proof fn lemma_play_once<G>(before: Sessions<G>, after: Sessions<G>, host: Host)
    requires
        before.holds(host),
        play_refusal(&before, host) is None,
        after@ == after_start(&before, host),
    ensures
        play_refusal(&after, host) == Some(PlayError::AlreadyStarted),
{
}

} // verus!
