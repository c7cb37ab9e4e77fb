use winautosave::config::{Config, ConfigError, DEFAULT_INTERVAL_SECONDS};
use winautosave::coordinator::{Action, Coordinator, Event, InputError, Phase, Report};
use winautosave::hotkey::{handle_message, HOTKEY_ID, WM_HOTKEY};
use winautosave::keyboard::{chord_outcome, Key, KeyStroke, KeyboardSimulator, STROKE_DELAY_MS};
use winautosave::pause::{status_label, PauseFlag};
use winautosave::window::{
    contains_folded, exe_name_from_wide, file_name, nul_terminated_len, WindowError,
    WindowMonitor,
};

fn strings(v: &[&str]) -> Vec<String> {
    v.iter().map(|s| s.to_string()).collect()
}

fn scenario_config() -> Config {
    Config {
        interval_seconds: 1,
        target_apps: strings(&["test.exe"]),
        hotkey_enabled: true,
    }
}

fn wide(s: &str) -> Vec<u16> {
    s.encode_utf16().collect()
}

#[test]
fn empty_list_matches_any_window() {
    let m = WindowMonitor::new();
    assert!(m.is_target_app(&[], Ok("anything.exe".to_string())));
    assert!(m.is_target_app(&[], Err(WindowError::NoForegroundWindow)));
    assert!(m.is_target_app(&[], Err(WindowError::ProcessQueryFailed)));
}

#[test]
fn matching_ignores_case_on_both_sides() {
    let m = WindowMonitor::new();
    let lower = strings(&["code.exe", "notepad.exe"]);
    let upper = strings(&["CODE.EXE", "NOTEPAD.EXE"]);
    for name in ["code.exe", "CODE.EXE", "Code.exe", "nOtEpAd.ExE"] {
        assert!(m.is_target_app(&lower, Ok(name.to_string())));
        assert!(m.is_target_app(&upper, Ok(name.to_string())));
    }
    assert!(!m.is_target_app(&lower, Ok("codex.exe".to_string())));
    assert!(!m.is_target_app(&upper, Ok("CODEX.EXE".to_string())));
}

#[test]
fn inspector_failure_matches_nothing() {
    let m = WindowMonitor::new();
    let targets = strings(&["test.exe"]);
    assert!(!m.is_target_app(&targets, Err(WindowError::ProcessQueryFailed)));
    assert!(!m.is_target_app(&targets, Err(WindowError::NoForegroundWindow)));
    assert!(!m.is_target_app(&targets, Err(WindowError::ProcessIdUnavailable)));
}

#[test]
fn toggle_twice_restores_flag() {
    let mut f = PauseFlag::new();
    assert!(!f.is_paused());
    assert!(f.toggle());
    assert!(!f.toggle());
    assert!(!f.is_paused());
    f.toggle();
    f.toggle();
    f.toggle();
    assert!(f.is_paused());
}

#[test]
fn hotkey_toggle_twice_restores_flag() {
    let mut f = PauseFlag::new();
    assert_eq!(handle_message(&mut f, WM_HOTKEY, HOTKEY_ID as usize), Some(true));
    assert_eq!(handle_message(&mut f, WM_HOTKEY, HOTKEY_ID as usize), Some(false));
    assert!(!f.is_paused());
}

#[test]
fn hotkey_and_tray_paths_toggle_alike() {
    let mut f = PauseFlag::new();
    assert_eq!(handle_message(&mut f, WM_HOTKEY, HOTKEY_ID as usize), Some(true));
    assert!(!f.toggle());
    assert!(f.toggle());
    assert_eq!(handle_message(&mut f, WM_HOTKEY, HOTKEY_ID as usize), Some(false));
}

#[test]
fn other_messages_leave_flag_alone() {
    let mut f = PauseFlag::new();
    assert_eq!(handle_message(&mut f, 0x0100, HOTKEY_ID as usize), None);
    assert_eq!(handle_message(&mut f, WM_HOTKEY, 2), None);
    assert!(!f.is_paused());
}

#[test]
fn status_labels() {
    assert_eq!(status_label(true), "PAUSED");
    assert_eq!(status_label(false), "RESUMED");
}

#[test]
fn paused_ticks_never_send() {
    let mut c = Coordinator::new(&scenario_config());
    for _ in 0..5 {
        assert!(matches!(c.step(Event::TimerElapsed { paused: true }), Action::Sleep));
        assert_eq!(c.phase(), Phase::Idle);
    }
    let mut all = Coordinator::new(&Config {
        interval_seconds: 1,
        target_apps: vec![],
        hotkey_enabled: false,
    });
    for _ in 0..5 {
        assert!(matches!(all.step(Event::TimerElapsed { paused: true }), Action::Sleep));
    }
}

#[test]
fn matching_window_gets_one_save_and_report() {
    let mut c = Coordinator::new(&scenario_config());
    let events = vec![
        Event::TimerElapsed { paused: false },
        Event::WindowResolved(Ok("test.exe".to_string())),
        Event::ChordSent(Ok(())),
        Event::SavedWindowResolved(Ok("test.exe".to_string())),
    ];
    let mut actions = Vec::new();
    for e in events {
        actions.push(c.step(e));
    }
    let sends = actions.iter().filter(|a| matches!(a, Action::SendChord)).count();
    assert_eq!(sends, 1);
    assert!(matches!(actions[0], Action::InspectWindow));
    assert!(matches!(actions[1], Action::SendChord));
    assert!(matches!(actions[2], Action::InspectSavedWindow));
    match &actions[3] {
        Action::Announce(Report::Saved(exe)) => assert_eq!(exe, "test.exe"),
        _ => panic!("expected a success report"),
    }
    assert_eq!(c.phase(), Phase::Idle);
}

#[test]
fn other_window_is_never_saved() {
    let mut c = Coordinator::new(&scenario_config());
    assert!(matches!(c.step(Event::TimerElapsed { paused: false }), Action::InspectWindow));
    assert!(matches!(
        c.step(Event::WindowResolved(Ok("other.exe".to_string()))),
        Action::Sleep
    ));
    assert_eq!(c.phase(), Phase::Idle);
}

#[test]
fn failed_inspection_skips_tick() {
    let mut c = Coordinator::new(&scenario_config());
    assert!(matches!(c.step(Event::TimerElapsed { paused: false }), Action::InspectWindow));
    assert!(matches!(
        c.step(Event::WindowResolved(Err(WindowError::ProcessQueryFailed))),
        Action::Sleep
    ));
    assert_eq!(c.phase(), Phase::Idle);
    assert!(matches!(c.step(Event::TimerElapsed { paused: false }), Action::InspectWindow));
}

#[test]
fn empty_list_sends_without_inspection() {
    let mut c = Coordinator::new(&Config {
        interval_seconds: 5,
        target_apps: vec![],
        hotkey_enabled: true,
    });
    assert!(matches!(c.step(Event::TimerElapsed { paused: false }), Action::SendChord));
}

#[test]
fn failed_chord_is_reported() {
    let mut c = Coordinator::new(&scenario_config());
    c.step(Event::TimerElapsed { paused: false });
    c.step(Event::WindowResolved(Ok("TEST.EXE".to_string())));
    let a = c.step(Event::ChordSent(Err(InputError::Rejected)));
    assert!(matches!(a, Action::Announce(Report::SaveFailed(InputError::Rejected))));
    assert_eq!(c.phase(), Phase::Idle);
}

#[test]
fn unnamed_saved_window_is_not_reported() {
    let mut c = Coordinator::new(&scenario_config());
    c.step(Event::TimerElapsed { paused: false });
    c.step(Event::WindowResolved(Ok("test.exe".to_string())));
    c.step(Event::ChordSent(Ok(())));
    let a = c.step(Event::SavedWindowResolved(Err(WindowError::NoForegroundWindow)));
    assert!(matches!(a, Action::Sleep));
}

#[test]
fn unexpected_event_ends_tick() {
    let mut c = Coordinator::new(&scenario_config());
    assert!(matches!(c.step(Event::ChordSent(Ok(()))), Action::Sleep));
    assert_eq!(c.phase(), Phase::Idle);
}

#[test]
fn save_chord_order() {
    let k = KeyboardSimulator::new();
    let chord = k.save_chord();
    assert_eq!(
        chord,
        vec![
            KeyStroke { key: Key::Control, release: false },
            KeyStroke { key: Key::S, release: false },
            KeyStroke { key: Key::S, release: true },
            KeyStroke { key: Key::Control, release: true },
        ]
    );
    assert_eq!(Key::Control.code(), 0x11);
    assert_eq!(Key::S.code(), 0x53);
    assert_eq!(STROKE_DELAY_MS, 10);
}

#[test]
fn default_settings() {
    let c = Config::default();
    assert_eq!(c.interval_seconds, DEFAULT_INTERVAL_SECONDS);
    assert_eq!(c.interval_seconds, 60);
    assert_eq!(
        c.target_apps,
        strings(&["notepad.exe", "Code.exe", "WINWORD.EXE", "EXCEL.EXE"])
    );
    assert!(c.hotkey_enabled);
}

#[test]
fn absent_settings_are_defaulted_and_persisted() {
    let plan = Config::plan_load(None).unwrap();
    assert!(plan.persist);
    assert_eq!(plan.config.interval_seconds, 60);
    assert_eq!(plan.config.target_apps.len(), 4);
    assert!(plan.config.hotkey_enabled);
}

#[test]
fn stored_settings_are_kept() {
    let plan = Config::plan_load(Some(scenario_config())).unwrap();
    assert!(!plan.persist);
    assert_eq!(plan.config.interval_seconds, 1);
    assert_eq!(plan.config.target_apps, strings(&["test.exe"]));
}

#[test]
fn clone_keeps_settings() {
    let c = scenario_config().clone();
    assert_eq!(c.interval_seconds, 1);
    assert_eq!(c.target_apps, strings(&["test.exe"]));
    assert!(c.hotkey_enabled);
}

#[test]
fn file_name_takes_last_component() {
    assert_eq!(file_name("C:\\Program Files\\App\\Code.exe"), "Code.exe");
    assert_eq!(file_name("notepad.exe"), "notepad.exe");
    assert_eq!(file_name("C:\\dir\\"), "");
    assert_eq!(file_name(""), "");
    assert_eq!(file_name("\\é\\wörd.exe"), "wörd.exe");
}

#[test]
fn nul_terminated_lengths() {
    assert_eq!(nul_terminated_len(&[0x41, 0x42, 0, 0x43]), 2);
    assert_eq!(nul_terminated_len(&[0x41, 0x42]), 2);
    assert_eq!(nul_terminated_len(&[0, 0x41]), 0);
    assert_eq!(nul_terminated_len(&[]), 0);
}

#[test]
fn exe_name_from_wide_buffer() {
    let mut buf = wide("C:\\Windows\\System32\\notepad.exe");
    buf.extend([0u16; 8]);
    assert_eq!(exe_name_from_wide(&buf), "notepad.exe");
    let mut bad = wide("C:\\x\\a");
    bad.push(0xD800);
    bad.push(0);
    assert_eq!(exe_name_from_wide(&bad), "a\u{FFFD}");
}

#[test]
fn folded_lookup() {
    let folded = strings(&["code.exe", "excel.exe"]);
    assert!(contains_folded(&folded, &"excel.exe".to_string()));
    assert!(!contains_folded(&folded, &"EXCEL.EXE".to_string()));
    assert!(!contains_folded(&folded, &"excel".to_string()));
    assert!(!contains_folded(&vec![], &"excel.exe".to_string()));
}

#[test]
fn zero_interval_is_refused() {
    let stored = Config {
        interval_seconds: 0,
        target_apps: strings(&["test.exe"]),
        hotkey_enabled: true,
    };
    assert!(matches!(Config::plan_load(Some(stored)), Err(ConfigError::ZeroInterval)));
}

#[test]
fn chord_outcome_needs_every_stroke() {
    assert_eq!(chord_outcome(&vec![1, 1, 1, 1]), Ok(()));
    assert_eq!(chord_outcome(&vec![1, 0, 1, 1]), Err(InputError::Rejected));
    assert_eq!(chord_outcome(&vec![1, 1, 1, 0]), Err(InputError::Rejected));
    assert_eq!(chord_outcome(&vec![]), Ok(()));
}
