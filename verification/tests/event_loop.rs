use mpris_client_async::streams::mpris::{
    collect_streams, handle_pending, merge_property_streams, MprisEvent, PlayerEntry, PlayerEvent,
    PlayerLoop, PollOutcome, Setup, Step,
};

type Ev = MprisEvent<u32, u64, char>;
type St = Step<u32, u64, char>;

fn entry(name: &str, handle: u32) -> PlayerEntry<u32> {
    PlayerEntry { name: name.to_string(), handle }
}

fn names(l: &PlayerLoop<u32>) -> Vec<String> {
    l.players().iter().map(|p| p.name.clone()).collect()
}

#[test]
fn handle_pending_settles_fetches() {
    let mut slot = 1u32;
    assert_eq!(handle_pending::<u32, ()>(PollOutcome::Pending, &mut slot), PollOutcome::Pending);
    assert_eq!(slot, 1);
    assert_eq!(handle_pending::<u32, &str>(PollOutcome::Ready(Err("gone")), &mut slot), PollOutcome::Ready(None));
    assert_eq!(slot, 1);
    assert_eq!(handle_pending::<u32, ()>(PollOutcome::Ready(Ok(9)), &mut slot), PollOutcome::Ready(Some(())));
    assert_eq!(slot, 9);
}

#[test]
fn collect_streams_all_or_first_failure() {
    assert_eq!(collect_streams::<u32, &str>(vec![Ok(1), Ok(2), Ok(3)]), Ok(vec![1, 2, 3]));
    assert_eq!(collect_streams::<u32, &str>(vec![Ok(1), Err("a"), Ok(2), Err("b")]), Err("a"));
    assert_eq!(collect_streams::<u32, &str>(vec![]), Ok(vec![]));
}

#[test]
fn merge_drops_properties_with_a_failed_subscription() {
    let merged = merge_property_streams::<u32, &str>(vec![
        vec![Ok(1), Ok(2)],
        vec![Ok(3), Err("no such property")],
        vec![],
        vec![Ok(4)],
    ]);
    assert_eq!(merged, vec![1, 2, 4]);
    assert_eq!(merge_property_streams::<u32, &str>(vec![]), Vec::<u32>::new());
}

#[test]
fn idle_poll_goes_to_positions() {
    let mut l = PlayerLoop::new(vec![entry("org.mpris.MediaPlayer2.a", 1)], true);
    assert!(matches!(l.begin::<u64, char>(), St::PollPlayers));
    let step: St = l.after_players(PollOutcome::Pending);
    assert!(matches!(step, St::PollPositions));
    let step: St = l.after_positions(PollOutcome::Ready(Some(42u64)));
    assert!(matches!(step, St::Finish(PollOutcome::Ready(Some(Ev::PositionChanged(42))))));
    let step: St = l.after_positions(PollOutcome::Pending);
    assert!(matches!(step, St::PollProperties));
    // Exhausted position streams do not end the loop.
    let step: St = l.after_positions(PollOutcome::Ready(None));
    assert!(matches!(step, St::PollProperties));
}

#[test]
fn idle_poll_reports_property_changes_or_waits() {
    let l = PlayerLoop::new(vec![entry("a", 1)], false);
    let step: St = l.after_properties(PollOutcome::Ready(Some('v')));
    assert!(matches!(step, St::Finish(PollOutcome::Ready(Some(Ev::PropertyChaned('v'))))));
    let step: St = l.after_properties(PollOutcome::Pending);
    assert!(matches!(step, St::Finish(PollOutcome::Pending)));
    let step: St = l.after_properties(PollOutcome::Ready(None));
    assert!(matches!(step, St::Finish(PollOutcome::Pending)));
}

#[test]
fn untracked_idle_poll_skips_positions() {
    let mut l = PlayerLoop::new(vec![entry("a", 1)], false);
    assert!(matches!(l.begin::<u64, char>(), St::PollPlayers));
    let step: St = l.after_players(PollOutcome::Pending);
    assert!(matches!(step, St::PollProperties));
}

#[test]
fn setup_fetches_positions_only_where_tracked() {
    let watching = PlayerLoop::<u32>::new(Vec::new(), true);
    let untracked = PlayerLoop::<u32>::new(Vec::new(), false);
    let s: Setup<u8, u16, &str> = untracked.after_property_setup(Ok(1));
    assert!(matches!(s, Setup::Done(Ok((1, None)))));
    let s: Setup<u8, u16, &str> = watching.after_property_setup(Ok(1));
    assert!(matches!(s, Setup::FetchPositions(1)));
    let s: Setup<u8, u16, &str> = watching.after_position_setup(1, Ok(2));
    assert!(matches!(s, Setup::Done(Ok((1, Some(2))))));
    let s: Setup<u8, u16, &str> = watching.after_position_setup(1, Err("no bus"));
    assert!(matches!(s, Setup::Done(Err("no bus"))));
    let s: Setup<u8, u16, &str> = watching.after_property_setup(Err("denied"));
    assert!(matches!(s, Setup::Done(Err("denied"))));
}

#[test]
fn borrowed_events_convert_to_reports() {
    let connected = PlayerEvent::Connected(entry("a", 7));
    let added: Ev = MprisEvent::from_player_event_ref(&connected);
    assert!(matches!(added, Ev::Added(7)));
    let disconnected = PlayerEvent::Disconnected(entry("b", 8));
    match MprisEvent::<u32, u64, char>::from_player_event_ref(&disconnected) {
        Ev::Removed(name) => assert_eq!(name, "b"),
        other => panic!("unexpected event {:?}", other),
    }
    let moved: Ev = MprisEvent::from_position_ref(&5u64);
    assert!(matches!(moved, Ev::PositionChanged(5)));
}

#[test]
fn connected_player_is_tracked_and_reported() {
    let mut l = PlayerLoop::new(vec![entry("a", 1)], true);
    let step: St = l.after_players(PollOutcome::Ready(Some(PlayerEvent::Connected(entry("b", 2)))));
    assert_eq!(names(&l), vec!["a".to_string(), "b".to_string()]);
    let event = match step {
        St::StartPositionFetch(e) => e,
        other => panic!("unexpected step {:?}", other),
    };
    assert!(matches!(event, Ev::Added(2)));
    // The position fetch succeeds at once, the property fetch is still running.
    let step = l.after_position_refresh(PollOutcome::Ready(Some(())), event);
    let event = match step {
        St::StartPropertyFetch(e) => e,
        other => panic!("unexpected step {:?}", other),
    };
    let step = l.after_property_refresh(PollOutcome::Pending, event);
    assert!(matches!(step, St::Finish(PollOutcome::Ready(Some(Ev::Added(2))))));
    // The next poll first settles the property fetch.
    assert!(matches!(l.begin::<u64, char>(), St::PollPropertyFetch));
    let step: St = l.after_property_fetch(PollOutcome::Ready(Some(())));
    assert!(matches!(step, St::PollPlayers));
    assert!(matches!(l.begin::<u64, char>(), St::PollPlayers));
}

#[test]
fn disconnected_player_is_dropped_by_name() {
    let mut l = PlayerLoop::new(vec![entry("a", 1), entry("b", 2), entry("a", 3), entry("c", 4)], false);
    let step: St = l.after_players(PollOutcome::Ready(Some(PlayerEvent::Disconnected(entry("a", 9)))));
    assert_eq!(names(&l), vec!["b".to_string(), "c".to_string()]);
    match step {
        St::StartPropertyFetch(Ev::Removed(name)) => assert_eq!(name, "a"),
        other => panic!("unexpected step {:?}", other),
    }
}

#[test]
fn connect_then_disconnect_restores_players() {
    let mut l = PlayerLoop::new(vec![entry("a", 1), entry("b", 2)], false);
    let _: St = l.after_players(PollOutcome::Ready(Some(PlayerEvent::Connected(entry("z", 5)))));
    let _: St = l.after_players(PollOutcome::Ready(Some(PlayerEvent::Disconnected(entry("z", 5)))));
    assert_eq!(names(&l), vec!["a".to_string(), "b".to_string()]);
    let handles: Vec<u32> = l.players().iter().map(|p| p.handle).collect();
    assert_eq!(handles, vec![1, 2]);
}

#[test]
fn untracked_positions_skip_the_position_fetch() {
    let mut l = PlayerLoop::new(Vec::new(), false);
    assert!(!l.track_position());
    let step: St = l.after_players(PollOutcome::Ready(Some(PlayerEvent::Connected(entry("a", 1)))));
    assert!(matches!(step, St::StartPropertyFetch(Ev::Added(1))));
    // Only the property fetch is pending now.
    assert!(matches!(l.begin::<u64, char>(), St::PollPropertyFetch));
}

#[test]
fn failures_and_ends_stop_the_loop() {
    let mut l = PlayerLoop::new(Vec::new(), true);
    let step: St = l.after_players(PollOutcome::Ready(None));
    assert!(matches!(step, St::Finish(PollOutcome::Ready(None))));
    let step: St = l.after_players(PollOutcome::Ready(Some(PlayerEvent::Connected(entry("a", 1)))));
    let event = match step {
        St::StartPositionFetch(e) => e,
        other => panic!("unexpected step {:?}", other),
    };
    let step = l.after_position_refresh(PollOutcome::Ready(None), event);
    assert!(matches!(step, St::Finish(PollOutcome::Ready(None))));
    // The failed fetch stays pending, and polling it again ends the poll the same way.
    assert!(matches!(l.begin::<u64, char>(), St::PollPositionFetch));
    let step: St = l.after_position_fetch(PollOutcome::Ready(None));
    assert!(matches!(step, St::Finish(PollOutcome::Ready(None))));
    let step: St = l.after_position_fetch(PollOutcome::Pending);
    assert!(matches!(step, St::Finish(PollOutcome::Pending)));
}

#[test]
fn pending_position_fetch_is_settled_before_the_property_fetch() {
    let mut l = PlayerLoop::new(Vec::new(), true);
    let step: St = l.after_players(PollOutcome::Ready(Some(PlayerEvent::Connected(entry("a", 1)))));
    let event = match step {
        St::StartPositionFetch(e) => e,
        other => panic!("unexpected step {:?}", other),
    };
    let step = l.after_position_refresh(PollOutcome::Pending, event);
    let event = match step {
        St::StartPropertyFetch(e) => e,
        other => panic!("unexpected step {:?}", other),
    };
    let step = l.after_property_refresh(PollOutcome::Ready(Some(())), event);
    assert!(matches!(step, St::Finish(PollOutcome::Ready(Some(Ev::Added(1))))));
    assert!(matches!(l.begin::<u64, char>(), St::PollPositionFetch));
    let step: St = l.after_position_fetch(PollOutcome::Ready(Some(())));
    assert!(matches!(step, St::PollPlayers));
}

#[test]
fn player_events_convert_to_reports() {
    let added: Ev = MprisEvent::from(PlayerEvent::Connected(entry("a", 7)));
    assert!(matches!(added, Ev::Added(7)));
    let removed: Ev = MprisEvent::from(PlayerEvent::Disconnected(entry("a", 7)));
    match removed {
        Ev::Removed(name) => assert_eq!(name, "a"),
        other => panic!("unexpected event {:?}", other),
    }
}
