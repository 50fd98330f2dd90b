use autoclicker::clicker::{click_delay_ms, AppState, ClickerLoop, WindowCheck, Tick, IDLE_POLL_MS};
use autoclicker::keys::{Key, KeyEvent};

fn started(trigger: &str, cps: u32) -> AppState {
    let mut s = AppState::new();
    assert_eq!(s.start("Notepad".to_string(), cps, trigger.to_string()), Ok(()));
    s
}

#[test]
fn new_state_is_idle() {
    let s = AppState::new();
    assert!(!s.is_running());
    assert!(s.config().is_none());
}

#[test]
fn start_stores_settings_and_runs() {
    let s = started("Alt", 12);
    assert!(s.is_running());
    let c = s.config().unwrap();
    assert_eq!(c.window_title, "Notepad");
    assert_eq!(c.cps, 12);
    assert_eq!(c.trigger_key, "Alt");
}

#[test]
fn second_start_is_refused_and_changes_nothing() {
    let mut s = started("Alt", 12);
    let r = s.start("Other".to_string(), 3, "Ctrl".to_string());
    assert_eq!(r, Err("AutoClicker is already running".to_string()));
    let c = s.config().unwrap();
    assert_eq!(c.window_title, "Notepad");
    assert_eq!(c.cps, 12);
    assert_eq!(c.trigger_key, "Alt");
    assert!(s.is_running());
}

#[test]
fn stop_undoes_start() {
    let mut s = started("Shift", 5);
    assert_eq!(s.stop(), Ok(()));
    assert!(!s.is_running());
    assert!(s.config().is_none());
    assert_eq!(s.stop(), Ok(()));
    assert!(!s.is_running());
    assert_eq!(s.start("B".to_string(), 7, "Ctrl".to_string()), Ok(()));
    assert_eq!(s.config().unwrap().cps, 7);
}

#[test]
fn click_delay_is_whole_milliseconds_per_click() {
    assert_eq!(click_delay_ms(1), 1000);
    assert_eq!(click_delay_ms(10), 100);
    assert_eq!(click_delay_ms(3), 333);
    assert_eq!(click_delay_ms(50), 20);
    assert_eq!(click_delay_ms(2000), 0);
}

#[test]
fn idle_loop_waits_ten_milliseconds() {
    let s = started("Alt", 10);
    let l = ClickerLoop::new();
    assert!(!l.key_held());
    assert!(!l.wants_click(s.config()));
    assert_eq!(l.tick(s.config(), WindowCheck::Unchecked), Tick::Wait { delay_ms: IDLE_POLL_MS });
    assert_eq!(IDLE_POLL_MS, 10);
}

#[test]
fn holding_the_trigger_clicks_at_the_set_pace() {
    let s = started("Ctrl", 10);
    let mut l = ClickerLoop::new();
    l.on_event(s.config(), KeyEvent::Press(Key::ControlRight));
    assert!(l.key_held());
    assert!(l.wants_click(s.config()));
    assert_eq!(
        l.tick(s.config(), WindowCheck::Unchecked),
        Tick::Pace { click: true, delay_ms: Some(100) }
    );
    l.on_event(s.config(), KeyEvent::Release(Key::ControlLeft));
    assert!(!l.key_held());
}

#[test]
fn unfocused_window_blocks_the_click_but_keeps_the_pace() {
    let s = started("Alt", 4);
    let mut l = ClickerLoop::new();
    l.on_event(s.config(), KeyEvent::Press(Key::Alt));
    let blocked = WindowCheck::Observed { focused: true, cursor_inside: false };
    assert_eq!(l.tick(s.config(), blocked), Tick::Pace { click: false, delay_ms: Some(250) });
    let blocked = WindowCheck::Observed { focused: false, cursor_inside: true };
    assert_eq!(l.tick(s.config(), blocked), Tick::Pace { click: false, delay_ms: Some(250) });
    let open = WindowCheck::Observed { focused: true, cursor_inside: true };
    assert_eq!(l.tick(s.config(), open), Tick::Pace { click: true, delay_ms: Some(250) });
}

#[test]
fn held_trigger_without_settings_goes_round_again() {
    let mut s = started("Alt", 4);
    let mut l = ClickerLoop::new();
    l.on_event(s.config(), KeyEvent::Press(Key::Alt));
    s.stop().unwrap();
    assert!(!l.wants_click(s.config()));
    assert_eq!(l.tick(s.config(), WindowCheck::Unchecked), Tick::Again);
}

#[test]
fn events_without_settings_are_ignored() {
    let s = AppState::new();
    let mut l = ClickerLoop::new();
    l.on_events(s.config(), &vec![KeyEvent::Press(Key::Alt), KeyEvent::Press(Key::ShiftLeft)]);
    assert!(!l.key_held());
}

#[test]
fn unknown_trigger_name_never_holds() {
    let s = started("Meta", 4);
    let mut l = ClickerLoop::new();
    l.on_events(s.config(), &vec![KeyEvent::Press(Key::Alt), KeyEvent::Press(Key::ControlLeft)]);
    assert!(!l.key_held());
}

#[test]
fn last_trigger_event_decides() {
    let s = started("Shift", 4);
    let mut l = ClickerLoop::new();
    let events = vec![
        KeyEvent::Press(Key::ShiftLeft),
        KeyEvent::Release(Key::ShiftRight),
        KeyEvent::Press(Key::ShiftRight),
        KeyEvent::Release(Key::Alt),
        KeyEvent::Press(Key::Other),
    ];
    l.on_events(s.config(), &events);
    assert!(l.key_held());
    l.on_events(s.config(), &vec![KeyEvent::Release(Key::ShiftLeft), KeyEvent::Press(Key::ControlLeft)]);
    assert!(!l.key_held());
}

#[test]
fn zero_clicks_per_second_has_no_pause() {
    let s = started("Alt", 0);
    let mut l = ClickerLoop::new();
    l.on_event(s.config(), KeyEvent::Press(Key::Alt));
    assert_eq!(l.tick(s.config(), WindowCheck::Unchecked), Tick::Pace { click: true, delay_ms: None });
    let closed = WindowCheck::Observed { focused: false, cursor_inside: false };
    assert_eq!(l.tick(s.config(), closed), Tick::Pace { click: false, delay_ms: None });
}
