use cosmic_launcher::screenshots::{
    PortalScreenshot, ScreenshotData, ScreenshotManager, WayshotScreenshot,
};
use cosmic_launcher::ui::{Args, LauncherTasks, PreviewMessage, SurfaceState};

#[test]
fn args_action_reflects_the_subcommand() {
    let args = Args { subcommand: Some(LauncherTasks::AltTab) };
    assert_eq!(args.action(), Some(&LauncherTasks::AltTab));
    let none = Args { subcommand: None };
    assert!(none.action().is_none());
}

#[test]
fn launcher_tasks_distinguish_directions() {
    assert_ne!(LauncherTasks::AltTab, LauncherTasks::ShiftAltTab);
}

#[test]
fn surface_states_compare() {
    assert_eq!(SurfaceState::Hidden, SurfaceState::Hidden);
    assert_ne!(SurfaceState::Visible, SurfaceState::WaitingToBeShown);
}

#[test]
fn preview_messages_carry_their_index() {
    let selected = PreviewMessage::WindowSelected(3);
    match selected {
        PreviewMessage::WindowSelected(i) => assert_eq!(i, 3),
        PreviewMessage::WindowActivated(_) => panic!("wrong variant"),
    }
    assert_ne!(PreviewMessage::WindowSelected(1), PreviewMessage::WindowActivated(1));
}

#[test]
fn screenshot_manager_is_a_unit() {
    assert_eq!(ScreenshotManager::new(), ScreenshotManager);
}

#[test]
fn screenshot_values_clone_their_contents() {
    let portal = PortalScreenshot {
        window_id: "portal_screen".to_string(),
        image_data: vec![1, 2],
        width: 2,
        height: 1,
        timestamp: 42,
    };
    let copy = portal.clone();
    assert_eq!(copy.window_id, "portal_screen");
    assert_eq!(copy.image_data, vec![1, 2]);
    assert_eq!(copy.timestamp, 42);

    let wayshot = WayshotScreenshot {
        window_id: "output_0".to_string(),
        image_data: vec![9],
        width: 1,
        height: 1,
        timestamp: 7,
    };
    let copy = wayshot.clone();
    assert_eq!(copy.window_id, "output_0");
    assert_eq!(copy.image_data, vec![9]);

    let frame = ScreenshotData {
        buffer: vec![0; 16],
        width: 2,
        height: 2,
        stride: 8,
        format: 0x34325241,
    };
    let copy = frame.clone();
    assert_eq!(copy.buffer.len(), 16);
    assert_eq!(copy.stride, 8);
    assert_eq!(copy.format, 0x34325241);
}
