use ctrgui::FrameOutput;
use ctrgui::Ime;
use ctrgui::ImeStage;
use ctrgui::Key;
use ctrgui::OutputEvent;
use ctrgui::SyntheticEvent;
use ctrgui::WidgetClick;

fn click(text: Option<&str>, value: Option<&str>) -> OutputEvent {
    OutputEvent::Clicked(WidgetClick {
        text: text.map(|s| s.to_string()),
        value: value.map(|s| s.to_string()),
    })
}

fn output(events: Vec<OutputEvent>, ime_requested: bool) -> FrameOutput {
    FrameOutput { events, ime_requested }
}

#[test]
fn stage_cycle_from_idle() {
    let mut s = ImeStage::Nothing;
    s.advance();
    assert_eq!(s, ImeStage::Nothing);
    assert_eq!(ImeStage::Nothing.next(), ImeStage::Nothing);
}

#[test]
fn stage_cycle_from_start() {
    let mut s = ImeStage::SelectAllDown;
    let mut steps = 0;
    while s != ImeStage::Nothing {
        s.advance();
        steps += 1;
        assert!(steps <= 8);
    }
    assert_eq!(steps, 7);
}

#[test]
fn stage_cycle_from_cancel() {
    let mut s = ImeStage::EscapeDown;
    let mut steps = 0;
    while s != ImeStage::Nothing {
        s.advance();
        steps += 1;
        assert!(steps <= 8);
    }
    assert_eq!(steps, 2);
}

#[test]
fn stage_cycle_eight_steps_from_anywhere() {
    let all = [
        ImeStage::Nothing,
        ImeStage::SelectAllDown,
        ImeStage::SelectAllUp,
        ImeStage::BackSpaceDown,
        ImeStage::BackSpaceUp,
        ImeStage::PutText,
        ImeStage::EscapeDown,
        ImeStage::EscapeUp,
    ];
    for start in all {
        let mut s = start;
        for _ in 0..8 {
            s.advance();
        }
        assert_eq!(s, ImeStage::Nothing);
    }
}

#[test]
fn add_event_per_stage() {
    let cases = [
        (ImeStage::Nothing, false, None),
        (
            ImeStage::SelectAllDown,
            false,
            Some(SyntheticEvent::Key { key: Key::A, pressed: true, command: true }),
        ),
        (
            ImeStage::SelectAllUp,
            false,
            Some(SyntheticEvent::Key { key: Key::A, pressed: false, command: true }),
        ),
        (
            ImeStage::BackSpaceDown,
            false,
            Some(SyntheticEvent::Key { key: Key::Backspace, pressed: true, command: false }),
        ),
        (
            ImeStage::BackSpaceUp,
            false,
            Some(SyntheticEvent::Key { key: Key::Backspace, pressed: false, command: false }),
        ),
        (ImeStage::PutText, true, None),
        (
            ImeStage::EscapeDown,
            false,
            Some(SyntheticEvent::Key { key: Key::Escape, pressed: true, command: false }),
        ),
        (
            ImeStage::EscapeUp,
            false,
            Some(SyntheticEvent::Key { key: Key::Escape, pressed: false, command: false }),
        ),
    ];
    for (stage, wants_text, event) in cases {
        let mut events = Vec::new();
        let r = stage.add_event(&mut events);
        assert_eq!(r, wants_text);
        match event {
            Some(e) => assert_eq!(events, vec![e]),
            None => assert!(events.is_empty()),
        }
    }
}

#[test]
fn full_replay_emits_scripted_sequence() {
    let mut ime = Ime::new();
    ime.handle_output(&output(vec![click(Some("hello"), None)], true));
    let initial = ime.prepare_keyboard();
    assert_eq!(initial.as_deref(), Some("hello"));
    ime.apply_keyboard_result(true, "hello".to_string());
    assert_eq!(ime.stage, ImeStage::START);

    let mut events = Vec::new();
    let mut per_frame = Vec::new();
    for _ in 0..7 {
        let before = events.len();
        ime.replay_step(&mut events);
        per_frame.push(events.len() - before);
    }
    assert_eq!(ime.stage, ImeStage::Nothing);
    assert_eq!(per_frame, vec![1, 1, 1, 1, 1, 1, 1]);
    assert_eq!(
        events,
        vec![
            SyntheticEvent::Key { key: Key::A, pressed: true, command: true },
            SyntheticEvent::Key { key: Key::A, pressed: false, command: true },
            SyntheticEvent::Key { key: Key::Backspace, pressed: true, command: false },
            SyntheticEvent::Key { key: Key::Backspace, pressed: false, command: false },
            SyntheticEvent::Text("hello".to_string()),
            SyntheticEvent::Key { key: Key::Escape, pressed: true, command: false },
            SyntheticEvent::Key { key: Key::Escape, pressed: false, command: false },
        ]
    );
    // The idle-returning step appends nothing.
    let before = events.len();
    ime.replay_step(&mut events);
    assert_eq!(events.len(), before);
    assert_eq!(ime.stage, ImeStage::Nothing);
}

#[test]
fn round_trip_replays_original_value() {
    let original = "unchanged field text";
    let mut ime = Ime::new();
    ime.handle_output(&output(vec![click(Some(original), None)], true));
    let initial = ime.prepare_keyboard().expect("keyboard must launch");
    assert_eq!(initial, original);
    // The user accepts without editing.
    ime.apply_keyboard_result(true, initial);
    let mut events = Vec::new();
    for _ in 0..7 {
        ime.replay_step(&mut events);
    }
    let texts: Vec<&SyntheticEvent> = events
        .iter()
        .filter(|e| matches!(e, SyntheticEvent::Text(_)))
        .collect();
    assert_eq!(texts, vec![&SyntheticEvent::Text(original.to_string())]);
    assert_eq!(ime.stage, ImeStage::Nothing);
    assert_eq!(ime.current_text_value, None);
}

#[test]
fn cancel_replays_escape_only() {
    let mut ime = Ime::new();
    ime.handle_output(&output(vec![click(Some("keep me"), None)], true));
    let _ = ime.prepare_keyboard().expect("keyboard must launch");
    ime.apply_keyboard_result(false, "discarded".to_string());
    assert_eq!(ime.stage, ImeStage::CANCEL);
    assert_eq!(ime.stage, ImeStage::EscapeDown);

    let mut events = Vec::new();
    ime.replay_step(&mut events);
    ime.replay_step(&mut events);
    assert_eq!(ime.stage, ImeStage::Nothing);
    assert_eq!(
        events,
        vec![
            SyntheticEvent::Key { key: Key::Escape, pressed: true, command: false },
            SyntheticEvent::Key { key: Key::Escape, pressed: false, command: false },
        ]
    );
}

#[test]
fn output_capture_suppressed_mid_replay() {
    let mut ime = Ime::new();
    ime.handle_output(&output(vec![click(Some("first"), None)], true));
    let _ = ime.prepare_keyboard();
    ime.apply_keyboard_result(true, "first".to_string());
    assert_eq!(ime.stage, ImeStage::SelectAllDown);

    // A stray click mid-replay must not corrupt the pending edit.
    ime.handle_output(&output(vec![click(Some("stray"), Some("9.9"))], false));
    assert_eq!(ime.current_text_value, Some("first".to_string()));
    assert_eq!(ime.current_numeric_value, None);
    assert_eq!(ime.stage, ImeStage::SelectAllDown);
}

#[test]
fn output_capture_last_click_wins_when_idle() {
    let mut ime = Ime::new();
    let frame = output(
        vec![
            click(Some("first"), None),
            OutputEvent::Other,
            click(None, Some("2.25")),
        ],
        false,
    );
    ime.handle_output(&frame);
    assert_eq!(ime.current_text_value, None);
    assert_eq!(ime.current_numeric_value, Some("2.25".to_string()));
    assert!(!ime.keyboard_requested);
}

#[test]
fn keyboard_prefilled_with_numeric_value() {
    let decimal = 3.5f64.to_string();
    let mut ime = Ime::new();
    ime.handle_output(&output(vec![click(None, Some(&decimal))], true));
    assert_eq!(ime.current_text_value, None);
    assert_eq!(ime.current_numeric_value, Some("3.5".to_string()));
    let initial = ime.prepare_keyboard();
    assert_eq!(initial.as_deref(), Some("3.5"));
    assert_eq!(ime.current_numeric_value, None);
}

#[test]
fn keyboard_prefilled_empty_for_unpopulated_widget() {
    let mut ime = Ime::new();
    ime.handle_output(&output(vec![click(None, None)], true));
    let initial = ime.prepare_keyboard();
    assert_eq!(initial.as_deref(), Some(""));
}

#[test]
fn keyboard_not_launched_without_request_or_mid_replay() {
    let mut ime = Ime::new();
    // No request pending: nothing to launch.
    assert_eq!(ime.prepare_keyboard(), None);

    // Request pending but a replay in flight: the launch waits.
    ime.handle_output(&output(vec![click(Some("x"), None)], true));
    let _ = ime.prepare_keyboard().expect("keyboard must launch");
    ime.apply_keyboard_result(true, "x".to_string());
    ime.handle_output(&output(vec![], true));
    assert!(ime.keyboard_requested);
    assert_eq!(ime.prepare_keyboard(), None);
    assert_eq!(ime.stage, ImeStage::SelectAllDown);
}
