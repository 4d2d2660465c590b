use learn_opengl::common::{process_event, WindowAction, WindowEvent};

#[test]
fn a_new_framebuffer_size_sets_the_whole_viewport() {
    assert_eq!(
        process_event(WindowEvent::FramebufferSize { width: 1600, height: 1200 }),
        WindowAction::Viewport { x: 0, y: 0, width: 1600, height: 1200 }
    );
    assert_eq!(
        process_event(WindowEvent::FramebufferSize { width: 0, height: 0 }),
        WindowAction::Viewport { x: 0, y: 0, width: 0, height: 0 }
    );
}

#[test]
fn pressing_escape_closes_the_window() {
    assert_eq!(process_event(WindowEvent::Key { escape: true, pressed: true }), WindowAction::Close);
}

#[test]
fn other_keys_and_other_key_changes_do_nothing() {
    assert_eq!(
        process_event(WindowEvent::Key { escape: true, pressed: false }),
        WindowAction::Nothing
    );
    assert_eq!(
        process_event(WindowEvent::Key { escape: false, pressed: true }),
        WindowAction::Nothing
    );
    assert_eq!(
        process_event(WindowEvent::Key { escape: false, pressed: false }),
        WindowAction::Nothing
    );
}

#[test]
fn other_events_do_nothing() {
    assert_eq!(process_event(WindowEvent::Other), WindowAction::Nothing);
}
