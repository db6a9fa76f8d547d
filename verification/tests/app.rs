use nmeagc::app::{AppEvent, AppState, AppTab, NmeaUpdate, RawLog, MAX_RAW_NMEA_LOGS};
use nmeagc::input::{KeyCode, KeyEvent, KeyEventKind, KeyModifiers};
use nmeagc::nmea::{RawNmeaLog, RawNmeaStatus, SentenceKind};

fn press(code: KeyCode) -> KeyEvent {
    KeyEvent::new_with_kind(code, KeyModifiers::none(), KeyEventKind::Press)
}

#[test]
fn tabs_move_and_stop_at_the_ends() {
    let mut tab = AppTab::default();
    tab.prev();
    assert_eq!(tab, AppTab::Monitor);
    tab.next();
    assert_eq!(tab, AppTab::Worldmap);
    tab.next();
    assert_eq!(tab, AppTab::Raw);
    tab.next();
    assert_eq!(tab, AppTab::Raw);
    tab.prev();
    assert_eq!(tab.as_str(), "   Map   ");
    assert_eq!(AppTab::Monitor.as_str(), " Monitor ");
}

#[test]
fn keys_quit_and_switch_tabs() {
    let mut state = AppState::new();
    assert!(matches!(state.handle_key_event(press(KeyCode::Char('q'))), Some(AppEvent::Quit)));
    assert!(matches!(state.handle_key_event(press(KeyCode::Esc)), Some(AppEvent::Quit)));
    let ctrl_c = KeyEvent::new_with_kind(KeyCode::Char('c'), KeyModifiers::control(), KeyEventKind::Press);
    assert!(matches!(state.handle_key_event(ctrl_c), Some(AppEvent::Quit)));
    assert!(state.handle_key_event(press(KeyCode::Char('c'))).is_none());
    assert!(state.handle_key_event(press(KeyCode::Tab)).is_none());
    assert_eq!(state.tab, AppTab::Worldmap);
    state.handle_key_event(press(KeyCode::Right));
    assert_eq!(state.tab, AppTab::Raw);
    state.handle_key_event(press(KeyCode::Left));
    assert_eq!(state.tab, AppTab::Worldmap);
    let release = KeyEvent::new_with_kind(KeyCode::Left, KeyModifiers::none(), KeyEventKind::Release);
    state.handle_key_event(release);
    assert_eq!(state.tab, AppTab::Worldmap);
    assert!(state.running);
}

#[test]
fn events_update_the_state() {
    let mut state = AppState::new();
    assert_eq!(state.handle_app_event(AppEvent::NmeaMessage(SentenceKind::Gsv)), NmeaUpdate::FromGsv);
    assert_eq!(state.handle_app_event(AppEvent::NmeaMessage(SentenceKind::Gll)), NmeaUpdate::Nothing);
    let log = RawNmeaLog { sentence: "$GPGLL*66".to_string(), status: RawNmeaStatus::Gnss };
    state.handle_app_event(AppEvent::RawNmeaSentence(log));
    assert_eq!(state.raw_data.len(), 1);
    assert_eq!(state.raw_data.get(0).unwrap().sentence, "$GPGLL*66");
    state.handle_app_event(AppEvent::Quit);
    assert!(!state.running);
}

#[test]
fn raw_log_keeps_the_most_recent_sentences() {
    let mut log = RawLog::new();
    for i in 0..(MAX_RAW_NMEA_LOGS + 5) {
        log.push(RawNmeaLog { sentence: i.to_string(), status: RawNmeaStatus::Other });
    }
    assert_eq!(log.len(), MAX_RAW_NMEA_LOGS);
    assert_eq!(log.get(0).unwrap().sentence, "5");
    assert_eq!(log.get(MAX_RAW_NMEA_LOGS - 1).unwrap().sentence, (MAX_RAW_NMEA_LOGS + 4).to_string());
    assert!(log.get(MAX_RAW_NMEA_LOGS).is_none());
}
