use nmeagc::cli::{CliDataBits, CliFlowControl, CliParity, CliStopBits, DataSource, SerialConfig};
use nmeagc::input::{KeyCode, KeyEvent, KeyEventKind, KeyModifiers};
use nmeagc::source_setup::{choice_list, shown_selection, SetupAction, SourceSetup, Step};

fn enter() -> KeyEvent {
    KeyEvent::new_with_kind(KeyCode::Enter, KeyModifiers::none(), KeyEventKind::Press)
}

fn key(code: KeyCode) -> KeyEvent {
    KeyEvent::new_with_kind(code, KeyModifiers::none(), KeyEventKind::Press)
}

#[test]
fn default_tcp_source_is_constructed() {
    let mut setup = SourceSetup::default();
    setup.advance();
    setup.advance();
    setup.advance();

    assert!(
        matches!(setup.advance(), SetupAction::Complete(DataSource::Tcp(config))
        if config.host == "127.0.0.1" && config.port == 23000)
    );
}

#[test]
fn invalid_tcp_port_keeps_the_same_step() {
    let mut setup = SourceSetup::default();
    setup.advance();
    setup.advance();
    setup.input = "not-a-port".to_string();

    setup.handle_key(enter());

    assert!(matches!(setup.step, Step::Text("TCP port")));
    assert_eq!(setup.error, Some("Enter a valid TCP port"));
}

#[test]
fn serial_source_is_configured_through_every_step() {
    let mut setup = SourceSetup::default();
    setup.handle_key(key(KeyCode::Down));
    setup.handle_key(enter());
    assert!(matches!(setup.step, Step::Text("Serial device path")));
    for c in "/dev/ttyUSB1".chars() {
        setup.handle_key(key(KeyCode::Char(c)));
    }
    setup.handle_key(enter());
    assert!(matches!(setup.step, Step::Text("Baudrate")));
    assert_eq!(setup.input, "9600");
    setup.handle_key(key(KeyCode::Backspace));
    setup.handle_key(key(KeyCode::Backspace));
    setup.handle_key(key(KeyCode::Char('1')));
    setup.handle_key(key(KeyCode::Char('2')));
    setup.handle_key(enter());
    assert_eq!(setup.baudrate, 9612);
    assert!(matches!(setup.step, Step::Choice("Serial data bits")));
    setup.handle_key(key(KeyCode::Down));
    setup.handle_key(key(KeyCode::Down));
    setup.handle_key(enter());
    assert_eq!(setup.data_bits, CliDataBits::Seven);
    setup.handle_key(key(KeyCode::Down));
    setup.handle_key(enter());
    assert_eq!(setup.parity, CliParity::Odd);
    setup.handle_key(key(KeyCode::Down));
    setup.handle_key(key(KeyCode::Down));
    setup.handle_key(enter());
    assert_eq!(setup.stop_bits, CliStopBits::Two);
    setup.handle_key(key(KeyCode::Down));
    setup.handle_key(key(KeyCode::Down));
    setup.handle_key(key(KeyCode::Down));
    setup.handle_key(enter());
    assert_eq!(setup.flow_control, CliFlowControl::Hardware);
    assert!(matches!(setup.step, Step::Text("Timeout (ms, optional)")));
    assert_eq!(setup.input, "");
    setup.handle_key(enter());
    assert!(matches!(setup.step, Step::Confirm));
    assert_eq!(setup.summary(), "Serial /dev/ttyUSB1 at 9612 baud");
    assert!(matches!(
        setup.handle_key(enter()),
        SetupAction::Complete(DataSource::Serial(SerialConfig {
            serial_path,
            baudrate: 9612,
            timeout: None,
            ..
        })) if serial_path == "/dev/ttyUSB1"
    ));
}

#[test]
fn empty_text_is_refused_with_its_message() {
    let mut setup = SourceSetup::default();
    setup.advance();
    setup.input = "   ".to_string();
    setup.advance();
    assert!(matches!(setup.step, Step::Text("TCP host")));
    assert_eq!(setup.error, Some("TCP host cannot be empty"));
    setup.input = "  gnss.local ".to_string();
    setup.advance();
    assert_eq!(setup.error, None);
    assert_eq!(setup.tcp_host, "gnss.local");
    assert_eq!(setup.input, "23000");
}

#[test]
fn confirmation_with_another_entry_starts_over() {
    let mut setup = SourceSetup::default();
    setup.advance();
    setup.advance();
    setup.advance();
    assert_eq!(setup.summary(), "TCP 127.0.0.1:23000");
    setup.handle_key(key(KeyCode::Down));
    assert!(matches!(setup.handle_key(enter()), SetupAction::Continue));
    assert!(matches!(setup.step, Step::Source));
    assert_eq!(setup.input, "");
}

#[test]
fn escape_cancels_and_released_keys_do_nothing() {
    let mut setup = SourceSetup::default();
    assert!(matches!(setup.handle_key(key(KeyCode::Esc)), SetupAction::Cancel));
    let release = KeyEvent::new_with_kind(KeyCode::Enter, KeyModifiers::none(), KeyEventKind::Release);
    assert!(matches!(setup.handle_key(release), SetupAction::Continue));
    assert!(matches!(setup.step, Step::Source));
}

#[test]
fn file_source_and_typing_outside_text_steps() {
    let mut setup = SourceSetup::default();
    setup.handle_key(key(KeyCode::Char('x')));
    assert_eq!(setup.input, "");
    setup.handle_key(key(KeyCode::Down));
    setup.handle_key(key(KeyCode::Down));
    setup.handle_key(key(KeyCode::Down));
    setup.handle_key(enter());
    assert!(matches!(setup.step, Step::Text("File path")));
    for c in "track.nmea".chars() {
        setup.handle_key(key(KeyCode::Char(c)));
    }
    setup.handle_key(enter());
    assert_eq!(setup.summary(), "File track.nmea");
    assert!(matches!(
        setup.handle_key(enter()),
        SetupAction::Complete(DataSource::File(config)) if config.path == "track.nmea"
    ));
}

#[test]
fn choice_lists_and_shown_selection() {
    assert_eq!(choice_list("Serial data bits"), vec!["5", "6", "7", "8"]);
    assert_eq!(choice_list("Serial parity"), vec!["None", "Odd", "Even"]);
    assert_eq!(choice_list("Serial stop bits"), vec!["1", "2"]);
    assert_eq!(choice_list("Serial flow control"), vec!["None", "Software", "Hardware"]);
    assert_eq!(shown_selection(1, 3), 1);
    assert_eq!(shown_selection(7, 3), 2);
    assert_eq!(shown_selection(usize::MAX, 2), 1);
}
