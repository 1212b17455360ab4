use vstd::prelude::*;
use crate::{Play, React};

verus! {

/// Why a run could not be started.
#[derive(Debug, Clone, Copy, PartialEq, Eq, Structural)]
pub enum PlayError {
    /// The shared state is lent out to an open transaction.
    InUse,
    /// A run has already been started on this shared state.
    AlreadyStarted,
}

/// One game session: whether its run has started, and the game value.
pub struct SharedState<G> {
    pub started: bool,
    pub game: G,
}

/// Owns the shared state of every session. A cell holds `None` while its state
/// is lent out to an open transaction: that is the exclusive-access flag.
pub struct Sessions<G> {
    cells: Vec<Option<SharedState<G>>>,
}

/// A handle to one session of a `Sessions` store. Copies of a handle alias
/// the same shared state; they never duplicate it.
#[derive(Debug, Clone, Copy, PartialEq, Eq, Structural)]
pub struct Host {
    slot: usize,
}

impl Host {
    /// The index of the session this handle refers to.
    pub closed spec fn id(self) -> nat {
        self.slot as nat
    }
}

impl<G> Sessions<G> {
    pub closed spec fn view(&self) -> Seq<Option<SharedState<G>>> {
        self.cells@
    }

    /// `host` refers to a session of this store.
    pub open spec fn holds(&self, host: Host) -> bool {
        host.id() < self@.len()
    }

    /// No transaction is open on the session of `host`.
    pub open spec fn is_free(&self, host: Host) -> bool {
        self.holds(host) && self@[host.id() as int] is Some
    }

    /// The shared state of the session of `host`, when it is not lent out.
    pub open spec fn state(&self, host: Host) -> SharedState<G> {
        self@[host.id() as int]->Some_0
    }

    /// The store after the game of `host`'s session is replaced by `game`.
    pub open spec fn after_game(&self, host: Host, game: G) -> Seq<Option<SharedState<G>>> {
        self@.update(host.id() as int, Some(SharedState { started: self.state(host).started, game }))
    }

    /// An empty store.
    pub fn new() -> (r: Self)
        ensures
            r@ == Seq::<Option<SharedState<G>>>::empty(),
    {
        Sessions { cells: Vec::new() }
    }

    /// Whether `host` refers to a session of this store.
    pub fn has(&self, host: &Host) -> (r: bool)
        ensures
            r == self.holds(*host),
    {
        host.slot < self.cells.len()
    }

    /// Whether `host` refers to a session of this store on which no
    /// transaction is open.
    pub fn is_available(&self, host: &Host) -> (r: bool)
        ensures
            r == self.is_free(*host),
    {
        host.slot < self.cells.len() && self.cells[host.slot].is_some()
    }

    /// Takes the state of `host`'s session out of its cell, leaving the cell marked in use.
    fn lend(&mut self, host: &Host) -> (st: SharedState<G>)
        requires
            old(self).is_free(*host),
        ensures
            st == old(self).state(*host),
            final(self)@ == old(self)@.update(host.id() as int, None),
    {
        self.cells[host.slot].take().unwrap()
    }

    /// Puts a state back into the cell of `host`'s session.
    fn restore(&mut self, host: &Host, st: SharedState<G>)
        requires
            old(self).holds(*host),
        ensures
            final(self)@ == old(self)@.update(host.id() as int, Some(st)),
    {
        self.cells.set(host.slot, Some(st));
    }
}

} // verus!

verus! {

impl<G: React> Sessions<G> {
    /// The store, and the event, after the reaction hook of `host`'s game has
    /// seen `event`.
    pub open spec fn after_event(&self, host: Host, event: G::Event) -> (
        Seq<Option<SharedState<G>>>,
        G::Event,
    ) {
        let (game, out) = G::react(self.state(host).game, event);
        (self.after_game(host, game), out)
    }
}

impl Host {
    /// Lets the game react to `event` under a write transaction, which is
    /// closed again before this returns.
    pub fn process_event<G: React>(&self, sessions: &mut Sessions<G>, event: &mut G::Event)
        requires
            old(sessions).is_free(*self),
        ensures
            final(sessions)@ == old(sessions).after_event(*self, *old(event)).0,
            *final(event) == old(sessions).after_event(*self, *old(event)).1,
    {
        let mut st = sessions.lend(self);
        st.game.handle_event(event);
        sessions.restore(self, st);
    }
}

} // verus!

verus! {

/// Whether `play` on `host` is refused, and why: `InUse` while a transaction
/// is open on the session, else `AlreadyStarted` once its run has started.
pub open spec fn play_refusal<G>(sessions: &Sessions<G>, host: Host) -> Option<PlayError> {
    if !sessions.is_free(host) {
        Some(PlayError::InUse)
    } else if sessions.state(host).started {
        Some(PlayError::AlreadyStarted)
    } else {
        None
    }
}

/// The store after a run has been started on `host`'s session.
pub open spec fn after_start<G>(sessions: &Sessions<G>, host: Host) -> Seq<Option<SharedState<G>>> {
    sessions@.update(
        host.id() as int,
        Some(SharedState { started: true, game: sessions.state(host).game }),
    )
}

impl Host {
    /// Creates a session in `sessions` whose game starts as `game`, with no
    /// run started, and returns its host.
    pub fn new<G>(sessions: &mut Sessions<G>, game: G) -> (h: Host)
        requires
            old(sessions)@.len() < usize::MAX,
        ensures
            h.id() == old(sessions)@.len(),
            final(sessions)@ == old(sessions)@.push(Some(SharedState { started: false, game })),
    {
        let slot = sessions.cells.len();
        sessions.cells.push(Some(SharedState { started: false, game }));
        Host { slot }
    }

    /// Starts the run of this session. Refused with `InUse` while a
    /// transaction is open on it, and with `AlreadyStarted` once a run was
    /// started on it: a session has at most one run.
    pub fn play<G: Play>(&self, sessions: &mut Sessions<G>) -> (r: Result<crate::run::Run<G>, PlayError>)
        requires
            old(sessions).holds(*self),
        ensures
            match play_refusal(old(sessions), *self) {
                Some(e) => r == Err::<crate::run::Run<G>, PlayError>(e) && final(sessions)@ == old(sessions)@,
                None => {
                    &&& r is Ok
                    &&& r->Ok_0.host() == *self
                    &&& r->Ok_0.phase() is NotStarted
                    &&& final(sessions)@ == after_start(old(sessions), *self)
                },
            },
    {
        match &mut sessions.cells[self.slot] {
            None => Err(PlayError::InUse),
            Some(st) => {
                if st.started {
                    Err(PlayError::AlreadyStarted)
                } else {
                    st.started = true;
                    Ok(crate::run::Run::new(*self))
                }
            },
        }
    }

    /// A copy of the game.
    pub fn game<G: Copy>(&self, sessions: &Sessions<G>) -> (g: G)
        requires
            sessions.is_free(*self),
        ensures
            g == sessions.state(*self).game,
    {
        sessions.cells[self.slot].as_ref().unwrap().game
    }
}

} // verus!

verus! {

/// An open read transaction on one session. Its state is lent out of the
/// store, so no other transaction can open there until `Sessions::end_read`
/// takes it back.
pub struct GameRef<G> {
    slot: usize,
    state: SharedState<G>,
}

/// An open write transaction on one session, closed by `Sessions::end_write`.
pub struct GameMut<G> {
    slot: usize,
    state: SharedState<G>,
}

impl<G> GameRef<G> {
    /// The host of the session this transaction is open on.
    pub closed spec fn host(&self) -> Host {
        Host { slot: self.slot }
    }

    /// The state lent out.
    pub closed spec fn state(&self) -> SharedState<G> {
        self.state
    }

    /// The game, read-only.
    pub fn game(&self) -> (g: &G)
        ensures
            *g == self.state().game,
    {
        &self.state.game
    }
}

impl<G> GameMut<G> {
    /// The host of the session this transaction is open on.
    pub closed spec fn host(&self) -> Host {
        Host { slot: self.slot }
    }

    /// The state lent out, with the game as the transaction has left it so far.
    pub closed spec fn state(&self) -> SharedState<G> {
        self.state
    }

    /// The game as it now stands in the transaction.
    pub fn game(&self) -> (g: &G)
        ensures
            *g == self.state().game,
    {
        &self.state.game
    }

    /// Replaces the game, handing back the one it held.
    pub fn replace_game(&mut self, game: G) -> (prev: G)
        ensures
            prev == old(self).state().game,
            final(self).host() == old(self).host(),
            final(self).state() == (SharedState { started: old(self).state().started, game }),
    {
        let mut game = game;
        std::mem::swap(&mut game, &mut self.state.game);
        game
    }
}

impl<G> Sessions<G> {
    /// Closes a read transaction: its session's state goes back to its cell.
    pub fn end_read(&mut self, guard: GameRef<G>)
        requires
            old(self).holds(guard.host()),
            old(self)@[guard.host().id() as int] is None,
        ensures
            final(self)@ == old(self)@.update(guard.host().id() as int, Some(guard.state())),
    {
        let host = Host { slot: guard.slot };
        self.restore(&host, guard.state);
    }

    /// Closes a write transaction: its session's state, with the game as the
    /// transaction left it, goes back to its cell.
    pub fn end_write(&mut self, guard: GameMut<G>)
        requires
            old(self).holds(guard.host()),
            old(self)@[guard.host().id() as int] is None,
        ensures
            final(self)@ == old(self)@.update(guard.host().id() as int, Some(guard.state())),
    {
        let host = Host { slot: guard.slot };
        self.restore(&host, guard.state);
    }
}

impl Host {
    /// A clone of the game.
    pub fn clone_game<G: Clone>(&self, sessions: &Sessions<G>) -> (g: G)
        requires
            sessions.is_free(*self),
        ensures
            cloned(sessions.state(*self).game, g),
    {
        sessions.cells[self.slot].as_ref().unwrap().game.clone()
    }

    /// Opens a read transaction on this session; it stays open until the
    /// guard goes back through `Sessions::end_read`.
    pub fn borrow_game<G>(&self, sessions: &mut Sessions<G>) -> (guard: GameRef<G>)
        requires
            old(sessions).is_free(*self),
        ensures
            guard.host() == *self,
            guard.state() == old(sessions).state(*self),
            final(sessions)@ == old(sessions)@.update(self.id() as int, None),
    {
        let state = sessions.lend(self);
        GameRef { slot: self.slot, state }
    }

    /// Opens a write transaction on this session; it stays open until the
    /// guard goes back through `Sessions::end_write`.
    pub fn borrow_game_mut<G>(&self, sessions: &mut Sessions<G>) -> (guard: GameMut<G>)
        requires
            old(sessions).is_free(*self),
        ensures
            guard.host() == *self,
            guard.state() == old(sessions).state(*self),
            final(sessions)@ == old(sessions)@.update(self.id() as int, None),
    {
        let state = sessions.lend(self);
        GameMut { slot: self.slot, state }
    }

    /// Runs `transact` on the game under a read transaction and returns its result.
    pub fn with_game<G, R, F: FnOnce(&G) -> R>(&self, sessions: &Sessions<G>, transact: F) -> (r: R)
        requires
            sessions.is_free(*self),
            transact.requires((&sessions.state(*self).game,)),
        ensures
            transact.ensures((&sessions.state(*self).game,), r),
    {
        transact(&sessions.cells[self.slot].as_ref().unwrap().game)
    }

    /// Runs `transact` on the game under a write transaction: `transact`
    /// takes the game and hands back the game to keep, with its result.
    pub fn with_game_mut<G, R, F: FnOnce(G) -> (G, R)>(&self, sessions: &mut Sessions<G>, transact: F) -> (r: R)
        requires
            old(sessions).is_free(*self),
            transact.requires((old(sessions).state(*self).game,)),
        ensures
            exists|game: G|
                {
                    &&& transact.ensures((old(sessions).state(*self).game,), (game, r))
                    &&& final(sessions)@ == old(sessions).after_game(*self, game)
                },
    {
        let st = sessions.lend(self);
        let started = st.started;
        let res = transact(st.game);
        let (game, r) = res;
        sessions.restore(self, SharedState { started, game });
        assert(final(sessions)@ == old(sessions).after_game(*self, game));
        r
    }
}

} // verus!
