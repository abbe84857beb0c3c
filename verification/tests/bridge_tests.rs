use cosmic_launcher::bridge::{on_subscribe, State};
use cosmic_launcher::events::{ToplevelHandle, ToplevelInfo, ToplevelUpdate, WaylandUpdate};

fn add_event(id: u64, title: &str) -> WaylandUpdate {
    WaylandUpdate::Toplevel(ToplevelUpdate::Add(ToplevelInfo {
        handle: ToplevelHandle { id },
        title: title.to_string(),
        app_id: String::new(),
        flags: 0,
    }))
}

fn title_of(update: &WaylandUpdate) -> &str {
    match update {
        WaylandUpdate::Toplevel(ToplevelUpdate::Add(info)) => info.title.as_str(),
        other => panic!("expected an Add event, got {:?}", other),
    }
}

#[test]
fn scripted_events_are_delivered_in_production_order() {
    let titles = ["alpha", "beta", "gamma", "delta", "epsilon"];
    let mut state = State::Waiting;
    let mut observed: Vec<WaylandUpdate> = Vec::new();
    for (i, t) in titles.iter().enumerate() {
        let (next, out) = state.step(Some(add_event(i as u64, t)));
        state = next;
        observed.push(out.expect("an item in Waiting is forwarded"));
    }
    assert_eq!(observed.len(), titles.len());
    for (i, t) in titles.iter().enumerate() {
        assert_eq!(title_of(&observed[i]), *t);
    }
    assert_eq!(state, State::Waiting);
}

#[test]
fn channel_closure_emits_exactly_one_finished_then_silence() {
    let mut state = State::Waiting;
    let (next, out) = state.step(None);
    state = next;
    assert_eq!(state, State::Finished);
    assert!(matches!(out, Some(WaylandUpdate::Finished)));
    // Whatever comes afterwards, nothing more is ever emitted.
    for i in 0..5u64 {
        let received = if i % 2 == 0 { Some(add_event(i, "late")) } else { None };
        let (next, out) = state.step(received);
        state = next;
        assert!(out.is_none());
        assert_eq!(state, State::Finished);
    }
}

#[test]
fn first_subscriber_spawns_the_worker_and_sees_init() {
    let (spawn, emitted) = on_subscribe(false);
    assert!(spawn);
    assert!(matches!(emitted, Some(WaylandUpdate::Init)));
}

#[test]
fn later_subscription_turns_spawn_nothing() {
    let (spawn, emitted) = on_subscribe(true);
    assert!(!spawn);
    assert!(emitted.is_none());
}
