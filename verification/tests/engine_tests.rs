use stasis::dispatch::{handle_event, scheduler_step, Event};
use stasis::engine::{EngineError, EngineState};
use stasis::model::{
    IdleAction, IdleActionBlock, LidCloseAction, LidOpenAction, PowerProfile, StasisConfig,
};

fn block(name: &str, timeout: u64, command: &str, kind: IdleAction) -> IdleActionBlock {
    IdleActionBlock {
        name: name.to_string(),
        timeout,
        command: command.to_string(),
        kind,
        resume_command: None,
        lock_command: None,
        last_triggered: None,
    }
}

fn config(battery: Vec<IdleActionBlock>, ac: Vec<IdleActionBlock>) -> StasisConfig {
    StasisConfig {
        ac_actions: ac,
        battery_actions: battery,
        debounce_seconds: 5,
        inhibit_apps: Vec::new(),
        monitor_media: false,
        ignore_remote_media: false,
        media_blacklist: Vec::new(),
        pre_suspend_command: None,
        respect_wayland_inhibitors: false,
        lid_close_action: LidCloseAction::Ignore,
        lid_open_action: LidOpenAction::Ignore,
    }
}

fn battery_state() -> EngineState {
    let cfg = config(
        vec![
            block("dim", 30, "dim-screen", IdleAction::Brightness),
            block("lock", 60, "lock-screen", IdleAction::LockScreen),
            block("suspend", 300, "systemctl suspend", IdleAction::Suspend),
        ],
        Vec::new(),
    );
    let mut state = EngineState::new(cfg, true, 1000);
    state.select_profile(PowerProfile::Battery);
    state
}

#[test]
fn evaluate_fires_due_actions_in_order() {
    // The worked example: battery actions dim@30, lock@60, suspend@300 with
    // 65 seconds of idle leave dim and lock fired and the cursor on suspend.
    let mut state = battery_state();
    let fired = state.evaluate(2000, 65);
    assert_eq!(fired, vec!["dim-screen".to_string(), "lock-screen".to_string()]);
    assert_eq!(state.action_index, 2);
    assert_eq!(state.actions[0].last_triggered, Some(2000));
    assert_eq!(state.actions[1].last_triggered, Some(2000));
    assert_eq!(state.actions[2].last_triggered, None);
}

#[test]
fn evaluate_never_fires_undue_actions() {
    let mut state = battery_state();
    let fired = state.evaluate(2000, 29);
    assert!(fired.is_empty());
    assert_eq!(state.action_index, 0);
    let fired = state.evaluate(2000, 30);
    assert_eq!(fired, vec!["dim-screen".to_string()]);
    assert_eq!(state.action_index, 1);
}

#[test]
fn equal_timeouts_fire_in_declaration_order() {
    let cfg = config(
        vec![
            block("first", 10, "cmd-first", IdleAction::Custom),
            block("second", 10, "cmd-second", IdleAction::Custom),
            block("third", 10, "cmd-third", IdleAction::Custom),
        ],
        Vec::new(),
    );
    let mut state = EngineState::new(cfg, true, 0);
    state.select_profile(PowerProfile::Battery);
    let fired = state.evaluate(100, 10);
    assert_eq!(
        fired,
        vec![
            "cmd-first".to_string(),
            "cmd-second".to_string(),
            "cmd-third".to_string()
        ]
    );
}

#[test]
fn debounce_blocks_refire_within_window_and_allows_after() {
    let mut state = battery_state();
    let fired = state.evaluate(2000, 30);
    assert_eq!(fired, vec!["dim-screen".to_string()]);
    // Rewind the cursor, as a manual reset of progress would: three seconds
    // later the same action is inside the five-second debounce window.
    state.action_index = 0;
    let fired = state.evaluate(2003, 30);
    assert!(fired.is_empty());
    // After the window has elapsed the action may fire again.
    state.action_index = 0;
    let fired = state.evaluate(2005, 30);
    assert_eq!(fired, vec!["dim-screen".to_string()]);
}

#[test]
fn on_resume_runs_resume_commands_in_reverse_and_resets() {
    let cfg = config(
        vec![
            IdleActionBlock {
                resume_command: Some("undim".to_string()),
                ..block("dim", 30, "dim-screen", IdleAction::Brightness)
            },
            IdleActionBlock {
                resume_command: Some("dpms-on".to_string()),
                ..block("dpms", 60, "dpms-off", IdleAction::Dpms)
            },
            IdleActionBlock {
                resume_command: Some("never-ran".to_string()),
                ..block("suspend", 300, "systemctl suspend", IdleAction::Suspend)
            },
        ],
        Vec::new(),
    );
    let mut state = EngineState::new(cfg, true, 0);
    state.select_profile(PowerProfile::Battery);
    let fired = state.evaluate(2000, 65);
    assert_eq!(fired.len(), 2);
    let resumed = state.on_resume(2100);
    // Only the two triggered actions contribute, most recent first; the
    // untriggered third never runs its resume command.
    assert_eq!(resumed, vec!["dpms-on".to_string(), "undim".to_string()]);
    assert_eq!(state.action_index, 0);
    assert!(state.actions.iter().all(|a| a.last_triggered.is_none()));
}

#[test]
fn paused_or_manually_paused_makes_evaluate_a_noop() {
    let mut state = battery_state();
    state.paused = true;
    assert!(state.evaluate(2000, 10_000).is_empty());
    assert_eq!(state.action_index, 0);
    state.paused = false;
    state.manually_paused = true;
    assert!(state.evaluate(2000, 10_000).is_empty());
    assert_eq!(state.action_index, 0);
    assert!(state.actions.iter().all(|a| a.last_triggered.is_none()));
}

#[test]
fn profile_switch_resets_cursor_and_fires_instants_once() {
    let cfg = config(
        vec![
            block("notify", 0, "notify-battery", IdleAction::Custom),
            block("dim", 30, "dim-screen", IdleAction::Brightness),
        ],
        vec![block("dim", 60, "dim-screen", IdleAction::Brightness)],
    );
    let mut state = EngineState::new(cfg, true, 0);
    state.select_profile(PowerProfile::Ac);
    state.action_index = 1;
    let cmds = handle_event(&mut state, Event::PowerSourceChanged { on_battery: true }, 500);
    assert_eq!(state.current_profile, Some(PowerProfile::Battery));
    assert_eq!(state.action_index, 0);
    assert_eq!(cmds, vec!["notify-battery".to_string()]);
    assert_eq!(state.actions[0].last_triggered, Some(500));
    assert_eq!(state.on_battery, Some(true));
}

#[test]
fn power_change_on_desktop_is_ignored() {
    let cfg = config(vec![block("dim", 30, "dim-screen", IdleAction::Brightness)], Vec::new());
    let mut state = EngineState::new(cfg, false, 0);
    let cmds = handle_event(&mut state, Event::PowerSourceChanged { on_battery: true }, 500);
    assert!(cmds.is_empty());
    assert_eq!(state.current_profile, None);
    assert_eq!(state.on_battery, None);
}

#[test]
fn lid_close_suspend_fires_without_pausing() {
    let mut cfg = config(
        vec![
            block("dim", 30, "dim-screen", IdleAction::Brightness),
            block("suspend", 300, "systemctl suspend", IdleAction::Suspend),
        ],
        Vec::new(),
    );
    cfg.lid_close_action = LidCloseAction::Suspend;
    let mut state = EngineState::new(cfg, true, 0);
    state.select_profile(PowerProfile::Battery);
    // The suspend action fires immediately, regardless of idle duration.
    let cmds = handle_event(&mut state, Event::LidClosed, 100);
    assert_eq!(cmds, vec!["systemctl suspend".to_string()]);
    // Lid-close itself does not pause; only the suspend bus event does.
    assert!(!state.paused);
    let cmds = handle_event(&mut state, Event::Suspend, 101);
    assert!(cmds.is_empty());
    assert!(state.paused);
    // With the engine already paused, a second lid-close is a no-op.
    let cmds = handle_event(&mut state, Event::LidClosed, 102);
    assert!(cmds.is_empty());
}

#[test]
fn lid_close_policies_ignore_lock_and_custom() {
    let mut state = battery_state();
    let cmds = handle_event(&mut state, Event::LidClosed, 100);
    assert!(cmds.is_empty());

    state.config.lid_close_action = LidCloseAction::LockScreen;
    let cmds = handle_event(&mut state, Event::LidClosed, 100);
    assert_eq!(cmds, vec!["lock-screen".to_string()]);

    state.config.lid_close_action = LidCloseAction::Custom("my-script".to_string());
    let cmds = handle_event(&mut state, Event::LidClosed, 100);
    assert_eq!(cmds, vec!["my-script".to_string()]);
}

#[test]
fn lid_close_within_debounce_fires_only_once() {
    let mut cfg = config(
        vec![
            block("dim", 30, "dim-screen", IdleAction::Brightness),
            block("lock", 60, "lock-screen", IdleAction::LockScreen),
        ],
        Vec::new(),
    );
    cfg.lid_close_action = LidCloseAction::LockScreen;
    let mut state = EngineState::new(cfg, true, 0);
    state.select_profile(PowerProfile::Battery);
    // A flapping lid: the first close fires the lock action...
    let cmds = handle_event(&mut state, Event::LidClosed, 100);
    assert_eq!(cmds, vec!["lock-screen".to_string()]);
    assert_eq!(state.actions[1].last_triggered, Some(100));
    // ...a duplicate three seconds later, inside the five-second debounce
    // window, fires nothing and keeps the old timestamp...
    let cmds = handle_event(&mut state, Event::LidClosed, 103);
    assert!(cmds.is_empty());
    assert_eq!(state.actions[1].last_triggered, Some(100));
    // ...and once the window has elapsed, a close fires again.
    let cmds = handle_event(&mut state, Event::LidClosed, 105);
    assert_eq!(cmds, vec!["lock-screen".to_string()]);
    assert_eq!(state.actions[1].last_triggered, Some(105));
}

#[test]
fn lid_open_wake_resumes() {
    let mut cfg = config(
        vec![IdleActionBlock {
            resume_command: Some("undim".to_string()),
            ..block("dim", 30, "dim-screen", IdleAction::Brightness)
        }],
        Vec::new(),
    );
    cfg.lid_open_action = LidOpenAction::Wake;
    let mut state = EngineState::new(cfg, true, 0);
    state.select_profile(PowerProfile::Battery);
    state.paused = true;
    state.evaluate(100, 30);
    let cmds = handle_event(&mut state, Event::LidOpened, 200);
    assert!(!state.paused);
    assert_eq!(state.last_activity, 200);
    // Nothing had fired while paused, so nothing resumes.
    assert!(cmds.is_empty());
}

#[test]
fn wake_event_resumes_and_unpauses() {
    let mut cfg = config(
        vec![IdleActionBlock {
            resume_command: Some("undim".to_string()),
            ..block("dim", 30, "dim-screen", IdleAction::Brightness)
        }],
        Vec::new(),
    );
    cfg.lid_close_action = LidCloseAction::Ignore;
    let mut state = EngineState::new(cfg, true, 0);
    state.select_profile(PowerProfile::Battery);
    state.evaluate(100, 30);
    handle_event(&mut state, Event::Suspend, 150);
    assert!(state.paused);
    let cmds = handle_event(&mut state, Event::Wake, 200);
    assert!(!state.paused);
    assert_eq!(state.last_activity, 200);
    assert_eq!(cmds, vec!["undim".to_string()]);
    assert_eq!(state.action_index, 0);
}

#[test]
fn loginctl_lock_and_unlock() {
    let mut state = battery_state();
    state.evaluate(100, 30);
    let cmds = handle_event(&mut state, Event::LoginctlLock, 150);
    assert!(cmds.is_empty());
    assert!(state.externally_locked);
    assert_eq!(state.action_index, 1);
    let cmds = handle_event(&mut state, Event::LoginctlUnlock, 200);
    assert!(cmds.is_empty());
    assert!(!state.externally_locked);
    assert_eq!(state.action_index, 0);
    assert!(state.actions.iter().all(|a| a.last_triggered.is_none()));
    assert_eq!(state.last_activity, 200);
}

#[test]
fn app_inhibitor_sets_and_clears_pause() {
    let mut state = battery_state();
    handle_event(&mut state, Event::AppInhibitorChanged { running: true }, 100);
    assert!(state.paused);
    handle_event(&mut state, Event::AppInhibitorChanged { running: false }, 101);
    assert!(!state.paused);
}

#[test]
fn trigger_by_name_bypasses_idle_and_marks() {
    let mut state = battery_state();
    let r = state.trigger_by_name(77, "suspend");
    assert_eq!(r, Ok("systemctl suspend".to_string()));
    assert_eq!(state.actions[2].last_triggered, Some(77));
    assert_eq!(state.action_index, 0);
}

#[test]
fn trigger_unknown_name_is_an_error_and_changes_nothing() {
    let mut state = battery_state();
    let before: Vec<Option<u64>> = state.actions.iter().map(|a| a.last_triggered).collect();
    let r = state.trigger_by_name(77, "lockscreen");
    assert_eq!(r, Err(EngineError::UnknownAction));
    let after: Vec<Option<u64>> = state.actions.iter().map(|a| a.last_triggered).collect();
    assert_eq!(before, after);
}

#[test]
fn trigger_all_fires_everything_in_order() {
    let mut state = battery_state();
    let fired = state.trigger_all(9);
    assert_eq!(
        fired,
        vec![
            "dim-screen".to_string(),
            "lock-screen".to_string(),
            "systemctl suspend".to_string()
        ]
    );
    assert!(state.actions.iter().all(|a| a.last_triggered == Some(9)));
}

#[test]
fn instant_actions_reset_and_refire() {
    let cfg = config(
        vec![
            block("notify", 0, "notify-send idle", IdleAction::Custom),
            block("dim", 30, "dim-screen", IdleAction::Brightness),
        ],
        Vec::new(),
    );
    let mut state = EngineState::new(cfg, true, 0);
    state.select_profile(PowerProfile::Battery);
    let fired = state.trigger_instant_actions(50);
    assert_eq!(fired, vec!["notify-send idle".to_string()]);
    assert_eq!(state.actions[0].last_triggered, Some(50));
    state.actions[1].last_triggered = Some(50);
    state.reset_instant_actions();
    assert_eq!(state.actions[0].last_triggered, None);
    // Timed actions' progress is untouched.
    assert_eq!(state.actions[1].last_triggered, Some(50));
}

#[test]
fn scheduler_step_resumes_on_fresh_activity() {
    let mut cfg = config(
        vec![IdleActionBlock {
            resume_command: Some("undim".to_string()),
            ..block("dim", 30, "dim-screen", IdleAction::Brightness)
        }],
        Vec::new(),
    );
    cfg.debounce_seconds = 0;
    let mut state = EngineState::new(cfg, true, 0);
    state.select_profile(PowerProfile::Battery);
    let fired = scheduler_step(&mut state, 100, 31);
    assert_eq!(fired, vec!["dim-screen".to_string()]);
    let resumed = scheduler_step(&mut state, 160, 0);
    assert_eq!(resumed, vec!["undim".to_string()]);
    assert_eq!(state.action_index, 0);
    assert_eq!(state.last_activity, 160);
    // With no excursion under way, fresh activity is an ordinary evaluation.
    let nothing = scheduler_step(&mut state, 161, 0);
    assert!(nothing.is_empty());
}

#[test]
fn reload_reinstalls_active_profile_and_clears_progress() {
    let mut state = battery_state();
    state.evaluate(100, 65);
    assert_eq!(state.action_index, 2);
    let new_cfg = config(
        vec![block("lock", 10, "new-lock", IdleAction::LockScreen)],
        Vec::new(),
    );
    state.update_from_config(new_cfg);
    assert_eq!(state.current_profile, Some(PowerProfile::Battery));
    assert_eq!(state.action_index, 0);
    assert_eq!(state.actions.len(), 1);
    assert_eq!(state.actions[0].command, "new-lock");
    assert_eq!(state.actions[0].last_triggered, None);
}
