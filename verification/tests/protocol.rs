use solidoak::ipc::{decode_message, FrameValue, Message};
use solidoak::shell::ShellState;
use solidoak::tick::{shutdown, tick, PollEvent, UiAction};

fn bufenter_frame(path: &str) -> Vec<FrameValue> {
    vec![
        FrameValue::Int(2),
        FrameValue::Text("bufenter".to_string()),
        FrameValue::List(vec![FrameValue::Text(path.to_string())]),
    ]
}

#[test]
fn decode_bufenter_carries_the_path() {
    let m = decode_message(&bufenter_frame("/home/u/proj/src/main.rs"));
    match m {
        Message::BufferEntered(p) => assert_eq!(p, "/home/u/proj/src/main.rs"),
        _ => panic!("expected a buffer-entered message"),
    }
}

#[test]
fn decode_vimleave() {
    let frame = vec![FrameValue::Int(2), FrameValue::Text("vimleave".to_string())];
    assert!(matches!(decode_message(&frame), Message::VimLeave));
}

#[test]
fn decode_malformed_frames_are_ignored() {
    // The frame of an unknown method is valid but meaningless.
    let unknown = vec![FrameValue::Int(1), FrameValue::Text("unknown".to_string())];
    assert!(matches!(decode_message(&unknown), Message::Unrecognized));

    // Too short to carry a method.
    let short = vec![FrameValue::Int(2)];
    assert!(matches!(decode_message(&short), Message::Unrecognized));

    // The method is not text.
    let tagless = vec![FrameValue::Int(2), FrameValue::Int(7)];
    assert!(matches!(decode_message(&tagless), Message::Unrecognized));

    // A buffer-entered frame without its path argument.
    let no_args = vec![FrameValue::Int(2), FrameValue::Text("bufenter".to_string())];
    assert!(matches!(decode_message(&no_args), Message::Unrecognized));

    let empty_args = vec![
        FrameValue::Int(2),
        FrameValue::Text("bufenter".to_string()),
        FrameValue::List(vec![]),
    ];
    assert!(matches!(decode_message(&empty_args), Message::Unrecognized));
}

#[test]
fn bufenter_tick_updates_selection_in_fixed_order() {
    let mut state = ShellState::new();
    let manifests: Vec<String> = vec!["/p".to_string()];
    state.add_project(&"/p".to_string());
    state.registry.run(&"/p".to_string(), vec!["cargo".to_string()], 9);

    let m = decode_message(&bufenter_frame("/p/src/main.rs"));
    let actions = tick(&mut state, PollEvent::Received(m), &manifests);

    assert_eq!(state.selection, Some("/p/src/main.rs".to_string()));
    assert!(!state.quit);
    assert_eq!(actions.len(), 4);
    assert!(matches!(actions[0], UiAction::PersistPrefs));
    assert!(matches!(actions[1], UiAction::RefreshTree));
    // The selection lies under the project root with a live builder, so
    // its terminal is the one to raise.
    match actions[2] {
        UiAction::ShowBuilder(Some(_)) => {},
        _ => panic!("expected the builder terminal to be shown"),
    }
    assert!(matches!(actions[3], UiAction::ApplyBuilderFont(n) if n == state.font_size));
}

#[test]
fn vimleave_sets_quit_and_shutdown_drains() {
    let mut state = ShellState::new();
    let manifests: Vec<String> = vec![];
    state.registry.run(&"/p".to_string(), vec!["cargo".to_string()], 11);

    let actions = tick(&mut state, PollEvent::Received(Message::VimLeave), &manifests);
    assert!(state.quit);
    assert_eq!(actions.len(), 3);
    assert!(matches!(actions[0], UiAction::RefreshTree));

    let stopped = shutdown(&mut state);
    assert_eq!(stopped.len(), 1);
    assert_eq!(stopped[0].child_pid, 11);
    assert_eq!(state.registry.builder_count(), 0);
}

#[test]
fn channel_end_acts_as_vimleave() {
    let mut state = ShellState::new();
    let manifests: Vec<String> = vec![];
    state.registry.run(&"/p".to_string(), vec!["cargo".to_string()], 12);

    let actions = tick(&mut state, PollEvent::ChannelClosed, &manifests);
    assert!(state.quit);
    assert_eq!(actions.len(), 3);

    let stopped = shutdown(&mut state);
    assert_eq!(stopped.len(), 1);
    assert_eq!(stopped[0].child_pid, 12);
    assert_eq!(state.registry.builder_count(), 0);
}

#[test]
fn malformed_frame_mutates_nothing() {
    let mut state = ShellState::new();
    let manifests: Vec<String> = vec![];
    state.add_project(&"/p".to_string());
    state.selection = Some("/p/x.rs".to_string());
    state.registry.run(&"/p".to_string(), vec!["cargo".to_string()], 13);
    // Align the builder terminals with the broadcast size first.
    state.registry.set_font_size(state.font_size);

    let frame = vec![FrameValue::Int(1), FrameValue::Text("unknown".to_string())];
    let m = decode_message(&frame);
    let actions = tick(&mut state, PollEvent::Received(m), &manifests);

    assert!(!state.quit);
    assert_eq!(state.selection, Some("/p/x.rs".to_string()));
    assert_eq!(state.registry.builder_pid(&"/p".to_string()), Some(13));
    assert_eq!(
        state.registry.builder_font_size(&"/p".to_string()),
        Some(state.font_size)
    );
    // The refresh batch still follows the message.
    assert_eq!(actions.len(), 3);
}

#[test]
fn idle_poll_asks_for_nothing() {
    let mut state = ShellState::new();
    let manifests: Vec<String> = vec![];
    let actions = tick(&mut state, PollEvent::Idle, &manifests);
    assert!(actions.is_empty());
    assert!(!state.quit);
}
