use cosmic_launcher::events::{ToplevelHandle, ToplevelInfo, ToplevelUpdate, WaylandUpdate};
use cosmic_launcher::registry::ToplevelRegistry;
use cosmic_launcher::worker::{on_new_toplevel, on_toplevel_closed, on_toplevel_updated};

fn info(id: u64, title: &str, app_id: &str) -> ToplevelInfo {
    ToplevelInfo {
        handle: ToplevelHandle { id },
        title: title.to_string(),
        app_id: app_id.to_string(),
        flags: 0,
    }
}

#[test]
fn add_puts_exactly_one_entry_in_the_registry() {
    let mut reg = ToplevelRegistry::new();
    let (event, capture) = on_new_toplevel(&mut reg, info(1, "Editor", "org.editor"));
    assert_eq!(reg.len(), 1);
    assert_eq!(capture, ToplevelHandle { id: 1 });
    let entry = reg.get(ToplevelHandle { id: 1 }).expect("entry for handle 1");
    assert_eq!(entry.title, "Editor");
    match event {
        WaylandUpdate::Toplevel(ToplevelUpdate::Add(i)) => {
            assert_eq!(i.title, "Editor");
            assert_eq!(i.handle, ToplevelHandle { id: 1 });
        }
        other => panic!("expected an Add event, got {:?}", other),
    }
}

#[test]
fn handle_set_tracks_add_update_remove_in_order() {
    let mut reg = ToplevelRegistry::new();
    on_new_toplevel(&mut reg, info(1, "One", "a"));
    on_new_toplevel(&mut reg, info(2, "Two", "b"));
    on_new_toplevel(&mut reg, info(3, "Three", "c"));
    on_toplevel_updated(&mut reg, info(2, "Two renamed", "b"));
    on_toplevel_closed(&mut reg, ToplevelHandle { id: 1 });
    assert_eq!(reg.len(), 2);
    assert!(!reg.contains(ToplevelHandle { id: 1 }));
    assert!(reg.contains(ToplevelHandle { id: 2 }));
    assert!(reg.contains(ToplevelHandle { id: 3 }));
    let two = reg.get(ToplevelHandle { id: 2 }).expect("entry for handle 2");
    assert_eq!(two.title, "Two renamed");
}

#[test]
fn update_replaces_entry_wholesale() {
    let mut reg = ToplevelRegistry::new();
    on_new_toplevel(&mut reg, info(7, "Old title", "old.app"));
    let event = on_toplevel_updated(&mut reg, info(7, "New title", "new.app"));
    assert!(event.is_some());
    assert_eq!(reg.len(), 1);
    let entry = reg.get(ToplevelHandle { id: 7 }).expect("entry for handle 7");
    assert_eq!(entry.title, "New title");
    assert_eq!(entry.app_id, "new.app");
}

#[test]
fn update_for_unknown_handle_emits_nothing() {
    let mut reg = ToplevelRegistry::new();
    on_new_toplevel(&mut reg, info(1, "One", "a"));
    let event = on_toplevel_updated(&mut reg, info(99, "Ghost", "x"));
    assert!(event.is_none());
    assert_eq!(reg.len(), 1);
}

#[test]
fn remove_emits_the_remove_event() {
    let mut reg = ToplevelRegistry::new();
    on_new_toplevel(&mut reg, info(5, "Five", "e"));
    let event = on_toplevel_closed(&mut reg, ToplevelHandle { id: 5 });
    assert_eq!(reg.len(), 0);
    match event {
        WaylandUpdate::Toplevel(ToplevelUpdate::Remove(h)) => {
            assert_eq!(h, ToplevelHandle { id: 5 })
        }
        other => panic!("expected a Remove event, got {:?}", other),
    }
}

#[test]
fn remove_of_absent_handle_changes_nothing() {
    let mut reg = ToplevelRegistry::new();
    on_new_toplevel(&mut reg, info(1, "One", "a"));
    on_toplevel_closed(&mut reg, ToplevelHandle { id: 42 });
    assert_eq!(reg.len(), 1);
    assert!(reg.contains(ToplevelHandle { id: 1 }));
}

#[test]
fn add_with_same_handle_replaces_not_duplicates() {
    let mut reg = ToplevelRegistry::new();
    on_new_toplevel(&mut reg, info(1, "First", "a"));
    on_new_toplevel(&mut reg, info(1, "Second", "a"));
    assert_eq!(reg.len(), 1);
    let entry = reg.get(ToplevelHandle { id: 1 }).expect("entry for handle 1");
    assert_eq!(entry.title, "Second");
}
