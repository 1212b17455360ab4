use posturn::roshambo::{result_message, Choice, Countdown, Msg, Outcome, RoShamBo};
use posturn::{Context, Host, PlayError, Sessions, Step, Turn};

fn test_ro_sham_bo(game: RoShamBo, expected_msg: String, expected_outcome: Outcome) {
    // Think "host" as in the person in charge of running the game, rather than "host" as a networking term.
    let mut sessions = Sessions::new();
    let host = Host::new(&mut sessions, game);

    let mut co = host.play(&mut sessions).unwrap();

    assert_eq!(co.resume(&mut sessions, ()), Step::Yielded(Msg("Ro!".into())));
    assert_eq!(co.resume(&mut sessions, ()), Step::Yielded(Msg("Sham!".into())));
    assert_eq!(co.resume(&mut sessions, ()), Step::Yielded(Msg("Bo!".into())));
    assert_eq!(co.resume(&mut sessions, ()), Step::Yielded(Msg(expected_msg)));
    assert_eq!(co.resume(&mut sessions, ()), Step::Complete(expected_outcome));
}

#[test]
fn it_works() {
    test_ro_sham_bo(RoShamBo(Choice::Rock, Choice::Rock), "Rock ties with Rock.".into(), Outcome::Tie);
    test_ro_sham_bo(RoShamBo(Choice::Rock, Choice::Paper), "Paper beats Rock.".into(), Outcome::Loss);
    test_ro_sham_bo(RoShamBo(Choice::Rock, Choice::Scissors), "Rock beats Scissors.".into(), Outcome::Win);
    test_ro_sham_bo(RoShamBo(Choice::Paper, Choice::Rock), "Paper beats Rock.".into(), Outcome::Win);
    test_ro_sham_bo(RoShamBo(Choice::Paper, Choice::Paper), "Paper ties with Paper.".into(), Outcome::Tie);
    test_ro_sham_bo(RoShamBo(Choice::Paper, Choice::Scissors), "Scissors beats Paper.".into(), Outcome::Loss);
    test_ro_sham_bo(RoShamBo(Choice::Scissors, Choice::Rock), "Rock beats Scissors.".into(), Outcome::Loss);
    test_ro_sham_bo(RoShamBo(Choice::Scissors, Choice::Paper), "Scissors beats Paper.".into(), Outcome::Win);
    test_ro_sham_bo(RoShamBo(Choice::Scissors, Choice::Scissors), "Scissors ties with Scissors.".into(), Outcome::Tie);
}

fn collect_run(game: RoShamBo) -> (Vec<Msg>, Outcome) {
    let mut sessions = Sessions::new();
    let host = Host::new(&mut sessions, game);
    let mut run = host.play(&mut sessions).unwrap();
    let mut events = Vec::new();
    loop {
        match run.resume(&mut sessions, ()) {
            Step::Yielded(e) => events.push(e),
            Step::Complete(o) => return (events, o),
        }
    }
}

#[test]
fn replayed_runs_agree() {
    let first = collect_run(RoShamBo(Choice::Paper, Choice::Scissors));
    let second = collect_run(RoShamBo(Choice::Paper, Choice::Scissors));
    assert_eq!(first, second);
    assert_eq!(first.0.len(), 4);
    assert_eq!(first.1, Outcome::Loss);
}

#[test]
fn start_enters_the_body() {
    let mut sessions = Sessions::new();
    let host = Host::new(&mut sessions, RoShamBo(Choice::Rock, Choice::Paper));
    let mut run = host.play(&mut sessions).unwrap();
    assert_eq!(run.start(&mut sessions), Step::Yielded(Msg("Ro!".into())));
    assert_eq!(run.resume(&mut sessions, ()), Step::Yielded(Msg("Sham!".into())));
}

#[test]
fn second_play_is_refused() {
    let mut sessions = Sessions::new();
    let host = Host::new(&mut sessions, RoShamBo(Choice::Rock, Choice::Rock));
    let _run = host.play(&mut sessions).unwrap();
    assert!(matches!(host.play(&mut sessions), Err(PlayError::AlreadyStarted)));
    let copy = host.clone();
    assert!(matches!(copy.play(&mut sessions), Err(PlayError::AlreadyStarted)));
}

#[test]
fn play_during_transaction_is_in_use() {
    let mut sessions = Sessions::new();
    let host = Host::new(&mut sessions, RoShamBo(Choice::Rock, Choice::Rock));
    let guard = host.borrow_game_mut(&mut sessions);
    assert!(!sessions.is_available(&host));
    assert!(matches!(host.play(&mut sessions), Err(PlayError::InUse)));
    assert!(matches!(host.clone().play(&mut sessions), Err(PlayError::InUse)));
    sessions.end_write(guard);
    assert!(sessions.is_available(&host));
    assert!(host.play(&mut sessions).is_ok());
}

#[test]
fn read_transaction_blocks_others() {
    let mut sessions = Sessions::new();
    let host = Host::new(&mut sessions, RoShamBo(Choice::Paper, Choice::Rock));
    let guard = host.borrow_game(&mut sessions);
    assert_eq!(guard.game().0, Choice::Paper);
    assert!(!sessions.is_available(&host.clone()));
    assert!(matches!(host.play(&mut sessions), Err(PlayError::InUse)));
    sessions.end_read(guard);
    assert_eq!(host.game(&sessions).1, Choice::Rock);
}

#[test]
fn copies_share_and_snapshots_stay() {
    let mut sessions = Sessions::new();
    let host = Host::new(&mut sessions, RoShamBo(Choice::Rock, Choice::Rock));
    let other = host.clone();
    let snapshot = host.game(&sessions);
    let cloned = other.clone_game(&sessions);
    let prev = host.with_game_mut(&mut sessions, |g: RoShamBo| (RoShamBo(Choice::Scissors, g.1), g.0));
    assert_eq!(prev, Choice::Rock);
    assert_eq!(other.game(&sessions).0, Choice::Scissors);
    assert_eq!(other.with_game(&sessions, |g: &RoShamBo| g.0), Choice::Scissors);
    assert_eq!(snapshot.0, Choice::Rock);
    assert_eq!(cloned.0, Choice::Rock);
}

#[test]
fn write_lease_changes_the_game() {
    let mut sessions = Sessions::new();
    let host = Host::new(&mut sessions, RoShamBo(Choice::Rock, Choice::Paper));
    let mut guard = host.borrow_game_mut(&mut sessions);
    let old = guard.replace_game(RoShamBo(Choice::Paper, Choice::Rock));
    assert_eq!(old.0, Choice::Rock);
    assert_eq!(guard.game().0, Choice::Paper);
    sessions.end_write(guard);
    let mut run = host.clone().play(&mut sessions).unwrap();
    for _ in 0..3 {
        run.resume(&mut sessions, ());
    }
    assert_eq!(run.resume(&mut sessions, ()), Step::Yielded(Msg("Paper beats Rock.".into())));
    assert_eq!(run.resume(&mut sessions, ()), Step::Complete(Outcome::Win));
}

#[test]
fn sessions_are_separate() {
    let mut sessions = Sessions::new();
    let a = Host::new(&mut sessions, RoShamBo(Choice::Rock, Choice::Rock));
    let b = Host::new(&mut sessions, RoShamBo(Choice::Paper, Choice::Paper));
    assert_ne!(a, b);
    assert!(sessions.has(&b));
    let _run = a.play(&mut sessions).unwrap();
    let guard = a.borrow_game(&mut sessions);
    assert!(sessions.is_available(&b));
    assert!(b.play(&mut sessions).is_ok());
    sessions.end_read(guard);
    assert_eq!(b.game(&sessions).0, Choice::Paper);
}

#[test]
fn replayed_event_matches_yielded_event() {
    let mut sessions = Sessions::new();
    let host = Host::new(&mut sessions, RoShamBo(Choice::Scissors, Choice::Paper));
    let mut event = Msg("Ro!".into());
    host.process_event(&mut sessions, &mut event);
    assert_eq!(event, Msg("Ro!".into()));
    assert_eq!(host.game(&sessions).0, Choice::Scissors);
    let ctx = Context { host };
    match ctx.yield_event::<RoShamBo, Countdown, Outcome>(&mut sessions, Msg("Ro!".into()), Countdown::Sham) {
        Turn::Suspend(s) => {
            let (at, e) = s.into_parts();
            assert!(matches!(at, Countdown::Sham));
            assert_eq!(e, event);
        }
        Turn::Finish(_) => panic!("a yield must suspend"),
    }
    assert_eq!(host.game(&sessions).1, Choice::Paper);
}

#[test]
fn result_messages() {
    assert_eq!(result_message(Choice::Rock, Choice::Rock), Msg("Rock ties with Rock.".into()));
    assert_eq!(result_message(Choice::Scissors, Choice::Paper), Msg("Scissors beats Paper.".into()));
    assert_eq!(result_message(Choice::Rock, Choice::Paper), Msg("Paper beats Rock.".into()));
    assert_eq!(Choice::Paper.against(Choice::Rock), Outcome::Win);
    assert_eq!(Choice::Paper.against(Choice::Scissors), Outcome::Loss);
    assert_eq!(Choice::Scissors.against(Choice::Scissors), Outcome::Tie);
    assert_eq!(Choice::Scissors.name(), "Scissors");
}
