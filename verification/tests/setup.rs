use nmeagc::cli::DataSource;
use nmeagc::input::{KeyCode, KeyEvent, KeyEventKind, KeyModifiers};
use nmeagc::setup::{SetupAction, SetupStep, SourceKind, SourceSetup};

fn press(code: KeyCode) -> KeyEvent {
    KeyEvent::new_with_kind(code, KeyModifiers::none(), KeyEventKind::Press)
}

#[test]
fn steps_move_forward_and_back() {
    assert_eq!(SetupStep::Source.next(), SetupStep::Config);
    assert_eq!(SetupStep::Done.next(), SetupStep::Done);
    assert_eq!(SetupStep::Source.prev(), SetupStep::Source);
    assert_eq!(SetupStep::Done.prev(), SetupStep::Config);
    assert_eq!(SourceKind::Serial.as_str(), "Serial port");
}

#[test]
fn list_selection_and_completion() {
    let mut setup = SourceSetup::default();
    assert_eq!(setup.source_selection, Some(0));
    setup.handle_key(press(KeyCode::Up));
    assert_eq!(setup.source_selection, Some(0));
    setup.handle_key(press(KeyCode::Down));
    assert_eq!(setup.source_selection, Some(1));
    setup.source_selection = None;
    setup.handle_key(press(KeyCode::Up));
    assert_eq!(setup.source_selection, Some(usize::MAX));
    assert!(matches!(setup.handle_key(press(KeyCode::Enter)), SetupAction::Continue));
    assert_eq!(setup.step, SetupStep::Config);
    setup.handle_key(press(KeyCode::Enter));
    assert_eq!(setup.step, SetupStep::Config);
    setup.step = SetupStep::Done;
    setup.handle_key(press(KeyCode::Char('a')));
    setup.handle_key(press(KeyCode::Char('b')));
    setup.handle_key(press(KeyCode::Backspace));
    assert_eq!(setup.input, "a");
    assert!(matches!(
        setup.handle_key(press(KeyCode::Enter)),
        SetupAction::Complete(DataSource::Tcp(config)) if config.host == "127.0.0.1" && config.port == 23000
    ));
    assert!(matches!(setup.handle_key(press(KeyCode::Esc)), SetupAction::Cancel));
}
