use stasis::model::{
    actions_sorted, AppInhibitPattern, IdleAction, IdleActionBlock, LidCloseAction, LidOpenAction,
    PowerProfile,
};

fn block(name: &str, timeout: u64, command: &str, kind: IdleAction) -> IdleActionBlock {
    IdleActionBlock {
        name: name.to_string(),
        timeout,
        command: command.to_string(),
        kind,
        resume_command: None,
        lock_command: None,
        last_triggered: None,
    }
}

#[test]
fn is_instant_means_zero_timeout() {
    assert!(block("n", 0, "c", IdleAction::Custom).is_instant());
    assert!(!block("n", 1, "c", IdleAction::Custom).is_instant());
}

#[test]
fn has_resume_command_checks_presence() {
    let mut b = block("n", 1, "c", IdleAction::Custom);
    assert!(!b.has_resume_command());
    b.resume_command = Some("undo".to_string());
    assert!(b.has_resume_command());
}

#[test]
fn lock_command_overrides_only_the_canonical_lock() {
    let mut b = block("lock", 60, "loginctl lock-session", IdleAction::LockScreen);
    assert_eq!(b.get_lock_command(), "loginctl lock-session");
    b.lock_command = Some("swaylock -f".to_string());
    assert_eq!(b.get_lock_command(), "swaylock -f");
    // A non-canonical command keeps itself even with an override present.
    let mut other = block("lock", 60, "my-locker", IdleAction::LockScreen);
    other.lock_command = Some("swaylock -f".to_string());
    assert_eq!(other.get_lock_command(), "my-locker");
}

#[test]
fn kind_labels() {
    assert_eq!(IdleAction::Brightness.label(), "brightness");
    assert_eq!(IdleAction::Dpms.label(), "dpms");
    assert_eq!(IdleAction::LockScreen.label(), "lock_screen");
    assert_eq!(IdleAction::Suspend.label(), "suspend");
    assert_eq!(IdleAction::Custom.label(), "custom");
}

#[test]
fn lid_policy_display_strings() {
    assert_eq!(LidCloseAction::Ignore.display_string(), "ignore");
    assert_eq!(LidCloseAction::LockScreen.display_string(), "lock_screen");
    assert_eq!(LidCloseAction::Suspend.display_string(), "suspend");
    assert_eq!(
        LidCloseAction::Custom("echo hi".to_string()).display_string(),
        "custom: echo hi"
    );
    assert_eq!(LidOpenAction::Ignore.display_string(), "ignore");
    assert_eq!(LidOpenAction::Wake.display_string(), "wake");
    assert_eq!(
        LidOpenAction::Custom("echo hi".to_string()).display_string(),
        "custom: echo hi"
    );
}

#[test]
fn inhibit_pattern_display_strings() {
    let lit = AppInhibitPattern::Literal("mpv".to_string());
    assert_eq!(lit.display_string(), "mpv");
    let re = AppInhibitPattern::Regex(regex::Regex::new("^steam_app_.*$").unwrap());
    assert_eq!(re.display_string(), "(regex) ^steam_app_.*$");
}

#[test]
fn profile_names() {
    assert_eq!(PowerProfile::Ac.name(), "ac");
    assert_eq!(PowerProfile::Battery.name(), "battery");
}

#[test]
fn sortedness_check() {
    let sorted = vec![
        block("a", 0, "c", IdleAction::Custom),
        block("b", 30, "c", IdleAction::Custom),
        block("c", 30, "c", IdleAction::Custom),
        block("d", 300, "c", IdleAction::Custom),
    ];
    assert!(actions_sorted(&sorted));
    let unsorted = vec![
        block("a", 60, "c", IdleAction::Custom),
        block("b", 30, "c", IdleAction::Custom),
    ];
    assert!(!actions_sorted(&unsorted));
    assert!(actions_sorted(&Vec::new()));
}
