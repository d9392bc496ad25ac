use stasis::control::{
    apply_control_command, parse_control_command, toggle_inhibit, ControlCommand,
};
use stasis::engine::EngineState;
use stasis::model::{
    IdleAction, IdleActionBlock, LidCloseAction, LidOpenAction, PowerProfile, StasisConfig,
};
use stasis::power::{find_session_for_uid, is_on_ac_power, PowerSupplyEntry, SessionRecord};
use stasis::text::u64_to_dec;
use stasis::utils::{chassis_from_code, format_duration, ChassisKind};

fn block(name: &str, timeout: u64, command: &str, kind: IdleAction) -> IdleActionBlock {
    IdleActionBlock {
        name: name.to_string(),
        timeout,
        command: command.to_string(),
        kind,
        resume_command: None,
        lock_command: None,
        last_triggered: None,
    }
}

fn simple_state(actions: Vec<IdleActionBlock>) -> EngineState {
    let cfg = StasisConfig {
        ac_actions: Vec::new(),
        battery_actions: actions,
        debounce_seconds: 5,
        inhibit_apps: Vec::new(),
        monitor_media: false,
        ignore_remote_media: false,
        media_blacklist: Vec::new(),
        pre_suspend_command: None,
        respect_wayland_inhibitors: false,
        lid_close_action: LidCloseAction::Ignore,
        lid_open_action: LidOpenAction::Ignore,
    };
    let mut state = EngineState::new(cfg, true, 0);
    state.select_profile(PowerProfile::Battery);
    state
}

#[test]
fn parse_simple_commands() {
    assert_eq!(parse_control_command("reload"), ControlCommand::Reload);
    assert_eq!(parse_control_command("pause"), ControlCommand::Pause);
    assert_eq!(parse_control_command("resume"), ControlCommand::Resume);
    assert_eq!(parse_control_command("stop"), ControlCommand::Stop);
    assert_eq!(parse_control_command("toggle_inhibit"), ControlCommand::ToggleInhibit);
    assert_eq!(parse_control_command("info"), ControlCommand::Info(false));
    assert_eq!(parse_control_command("info --json"), ControlCommand::Info(true));
    assert_eq!(parse_control_command("list_actions"), ControlCommand::ListActions);
}

#[test]
fn parse_trigger_commands() {
    assert_eq!(parse_control_command("trigger all"), ControlCommand::TriggerAll);
    assert_eq!(
        parse_control_command("trigger lock"),
        ControlCommand::Trigger("lock".to_string())
    );
    assert_eq!(
        parse_control_command("trigger   lock  "),
        ControlCommand::Trigger("lock".to_string())
    );
    assert_eq!(parse_control_command("trigger "), ControlCommand::TriggerMissingName);
    assert_eq!(parse_control_command("trigger    "), ControlCommand::TriggerMissingName);
    // Without the separating space the word is no trigger command at all.
    assert_eq!(
        parse_control_command("trigger"),
        ControlCommand::Unknown("trigger".to_string())
    );
}

#[test]
fn parse_unknown_commands() {
    assert_eq!(
        parse_control_command("dance"),
        ControlCommand::Unknown("dance".to_string())
    );
    assert_eq!(parse_control_command(""), ControlCommand::Unknown(String::new()));
}

#[test]
fn toggle_inhibit_twice_returns_to_original() {
    let mut state = simple_state(vec![block("dim", 30, "dim-screen", IdleAction::Brightness)]);
    let original = state.manually_paused;
    let first = toggle_inhibit(&mut state);
    assert_eq!(first.alt, "manually_inhibited");
    assert_eq!(first.tooltip, "Idle inhibition active");
    assert!(state.manually_paused);
    let second = toggle_inhibit(&mut state);
    assert_eq!(second.alt, "idle_active");
    assert_eq!(second.tooltip, "Idle inhibition cleared");
    assert_eq!(state.manually_paused, original);
}

#[test]
fn apply_pause_resume_and_stop() {
    let mut state = simple_state(vec![block("dim", 30, "dim-screen", IdleAction::Brightness)]);
    let out = apply_control_command(&mut state, &ControlCommand::Pause, 10, 0, 0, false);
    assert_eq!(out.reply, "Idle manager paused");
    assert!(state.manually_paused);
    let out = apply_control_command(&mut state, &ControlCommand::Resume, 20, 0, 0, false);
    assert_eq!(out.reply, "Idle manager resumed");
    assert!(!state.manually_paused);
    assert_eq!(state.last_activity, 20);
    let out = apply_control_command(&mut state, &ControlCommand::Stop, 30, 0, 0, false);
    assert!(out.stop_requested);
    assert_eq!(out.reply, "Stopping Stasis...");
}

#[test]
fn apply_trigger_replies() {
    let mut state = simple_state(vec![block("lock", 60, "lock-screen", IdleAction::LockScreen)]);
    let out = apply_control_command(
        &mut state,
        &ControlCommand::Trigger("lock".to_string()),
        10,
        0,
        0,
        false,
    );
    assert_eq!(out.reply, "Action 'lock' triggered successfully");
    assert_eq!(out.run, vec!["lock-screen".to_string()]);
    let out = apply_control_command(
        &mut state,
        &ControlCommand::Trigger("lockscreen".to_string()),
        10,
        0,
        0,
        false,
    );
    assert_eq!(out.reply, "ERROR: Unknown action 'lockscreen'");
    assert!(out.run.is_empty());
    let out = apply_control_command(&mut state, &ControlCommand::TriggerMissingName, 10, 0, 0, false);
    assert_eq!(out.reply, "ERROR: No action name provided");
    let out = apply_control_command(
        &mut state,
        &ControlCommand::Unknown("dance".to_string()),
        10,
        0,
        0,
        false,
    );
    assert_eq!(out.reply, "ERROR: Unknown command 'dance'");
}

#[test]
fn apply_list_actions() {
    let mut state = simple_state(vec![
        block("dim", 30, "dim-screen", IdleAction::Brightness),
        block("lock", 60, "lock-screen", IdleAction::LockScreen),
    ]);
    let out = apply_control_command(&mut state, &ControlCommand::ListActions, 10, 0, 0, false);
    assert_eq!(out.reply, "dim, lock");
    let mut empty = simple_state(Vec::new());
    let out = apply_control_command(&mut empty, &ControlCommand::ListActions, 10, 0, 0, false);
    assert_eq!(out.reply, "No actions available");
}

#[test]
fn apply_info_reports_state() {
    let mut state = simple_state(vec![block("dim", 30, "dim-screen", IdleAction::Brightness)]);
    let out = apply_control_command(&mut state, &ControlCommand::Info(false), 10, 65, 3700, false);
    assert!(out.status.is_none());
    assert_eq!(
        out.reply,
        "Idle active\nIdle time: 1m 5s\nUptime: 1h 1m\nPaused: false\nManually paused: false\nApp blocking: false"
    );
    let out = apply_control_command(&mut state, &ControlCommand::Info(true), 10, 65, 3700, true);
    let status = out.status.expect("json info carries a status object");
    assert_eq!(status.alt, "idle_inhibited");
    assert_eq!(status.text, "");
    assert_eq!(
        status.tooltip,
        "Idle inhibited\nIdle time: 65s\nUptime: 3700s\nPaused: false\nManually paused: false\nApp blocking: true"
    );
}

#[test]
fn apply_reload_only_requests() {
    let mut state = simple_state(vec![block("dim", 30, "dim-screen", IdleAction::Brightness)]);
    let out = apply_control_command(&mut state, &ControlCommand::Reload, 10, 0, 0, false);
    assert!(out.reload_requested);
    assert!(!out.stop_requested);
    assert_eq!(out.reply, "");
    assert_eq!(state.action_index, 0);
}

#[test]
fn format_duration_formats_each_range() {
    assert_eq!(format_duration(0), "0s");
    assert_eq!(format_duration(45), "45s");
    assert_eq!(format_duration(60), "1m 0s");
    assert_eq!(format_duration(65), "1m 5s");
    assert_eq!(format_duration(3599), "59m 59s");
    assert_eq!(format_duration(3600), "1h 0m");
    assert_eq!(format_duration(3700), "1h 1m");
    assert_eq!(format_duration(7265), "2h 1m");
}

#[test]
fn decimal_writing_is_exact() {
    assert_eq!(u64_to_dec(0), "0");
    assert_eq!(u64_to_dec(7), "7");
    assert_eq!(u64_to_dec(10), "10");
    assert_eq!(u64_to_dec(65), "65");
    assert_eq!(u64_to_dec(18446744073709551615), "18446744073709551615");
}

#[test]
fn chassis_codes_classify() {
    assert!(matches!(chassis_from_code("8\n"), ChassisKind::Laptop));
    assert!(matches!(chassis_from_code("9"), ChassisKind::Laptop));
    assert!(matches!(chassis_from_code(" 10 "), ChassisKind::Laptop));
    assert!(matches!(chassis_from_code("14\n"), ChassisKind::Laptop));
    assert!(matches!(chassis_from_code("3"), ChassisKind::Desktop));
    assert!(matches!(chassis_from_code(""), ChassisKind::Desktop));
}

fn supply(name: &str, ty: Option<&str>, online: Option<&str>) -> PowerSupplyEntry {
    PowerSupplyEntry {
        name: name.to_string(),
        supply_type: ty.map(|s| s.to_string()),
        online: online.map(|s| s.to_string()),
    }
}

#[test]
fn power_supply_scan_detects_mains() {
    assert!(is_on_ac_power(&vec![supply("ucsi-source-psy", Some("Mains\n"), Some("1\n"))]));
    assert!(!is_on_ac_power(&vec![supply("ucsi-source-psy", Some("Mains\n"), Some("0\n"))]));
    assert!(!is_on_ac_power(&vec![supply("BAT0", Some("Battery\n"), Some("1\n"))]));
    assert!(is_on_ac_power(&vec![
        supply("BAT0", Some("Battery\n"), Some("0\n")),
        supply("ADP1", None, Some("1\n")),
    ]));
    assert!(!is_on_ac_power(&vec![supply("ADP1", None, None)]));
    assert!(!is_on_ac_power(&Vec::new()));
}

#[test]
fn session_lookup_picks_first_matching_uid() {
    let sessions = vec![
        SessionRecord { uid: 0, path: "/org/freedesktop/login1/session/_30".to_string() },
        SessionRecord { uid: 1000, path: "/org/freedesktop/login1/session/_31".to_string() },
        SessionRecord { uid: 1000, path: "/org/freedesktop/login1/session/_32".to_string() },
    ];
    assert_eq!(
        find_session_for_uid(&sessions, 1000),
        Some("/org/freedesktop/login1/session/_31".to_string())
    );
    assert_eq!(find_session_for_uid(&sessions, 1001), None);
}
