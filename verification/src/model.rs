use vstd::prelude::*;

verus! {

use vstd::string::StringExecFns;
use crate::text::str_eq;

/// Classifies an action block's behaviour, for pairing with resume logic.
#[derive(Debug, Clone, Copy, PartialEq, Eq, Hash, Structural)]
pub enum IdleAction {
    Brightness,
    Dpms,
    LockScreen,
    Suspend,
    Custom,
}

impl IdleAction {
    /// The short lower-case label of the kind, as shown to users.
    pub fn label(&self) -> (r: &'static str)
        ensures
            *self is Brightness ==> r@ == "brightness"@,
            *self is Dpms ==> r@ == "dpms"@,
            *self is LockScreen ==> r@ == "lock_screen"@,
            *self is Suspend ==> r@ == "suspend"@,
            *self is Custom ==> r@ == "custom"@,
    {
        match self {
            IdleAction::Brightness => "brightness",
            IdleAction::Dpms => "dpms",
            IdleAction::LockScreen => "lock_screen",
            IdleAction::Suspend => "suspend",
            IdleAction::Custom => "custom",
        }
    }
}

/// One configured idle action: fires `command` once idle time reaches
/// `timeout` seconds. `timeout == 0` marks an instant action, fired on
/// qualifying transitions instead of idle accumulation.
#[derive(Debug, Clone)]
pub struct IdleActionBlock {
    pub name: String,
    pub timeout: u64,
    pub command: String,
    pub kind: IdleAction,
    pub resume_command: Option<String>,
    pub lock_command: Option<String>,
    pub last_triggered: Option<u64>,
}

/// The command the block runs when it fires: `lock_command` overrides
/// `command` exactly when `command` is the canonical lock invocation.
pub open spec fn spec_effective_command(b: IdleActionBlock) -> Seq<char> {
    if b.command@ == "loginctl lock-session"@ && b.lock_command is Some {
        b.lock_command->0@
    } else {
        b.command@
    }
}

/// `b` with its trigger timestamp set to `now`.
pub open spec fn with_triggered(b: IdleActionBlock, now: u64) -> IdleActionBlock {
    IdleActionBlock {
        name: b.name,
        timeout: b.timeout,
        command: b.command,
        kind: b.kind,
        resume_command: b.resume_command,
        lock_command: b.lock_command,
        last_triggered: Some(now),
    }
}

/// `b` with its trigger timestamp cleared.
pub open spec fn with_cleared(b: IdleActionBlock) -> IdleActionBlock {
    IdleActionBlock {
        name: b.name,
        timeout: b.timeout,
        command: b.command,
        kind: b.kind,
        resume_command: b.resume_command,
        lock_command: b.lock_command,
        last_triggered: None,
    }
}

impl IdleActionBlock {
    pub fn is_instant(&self) -> (r: bool)
        ensures
            r == (self.timeout == 0),
    {
        self.timeout == 0
    }

    pub fn has_resume_command(&self) -> (r: bool)
        ensures
            r == (self.resume_command is Some),
    {
        self.resume_command.is_some()
    }

    pub fn get_lock_command(&self) -> (r: &str)
        ensures
            r@ == spec_effective_command(*self),
    {
        if str_eq(self.command.as_str(), "loginctl lock-session") {
            match &self.lock_command {
                Some(lc) => lc.as_str(),
                None => self.command.as_str(),
            }
        } else {
            self.command.as_str()
        }
    }
}

/// A configured foreground application that inhibits idling, given either as
/// a literal process name or as a regular expression over process names.
#[derive(Debug)]
pub enum AppInhibitPattern {
    Literal(String),
    Regex(regex::Regex),
}

#[verifier::external_type_specification]
#[verifier::external_body]
pub struct ExRegex(regex::Regex);

/// Relies on regex::Regex::as_str: returns the pattern string the regex was
/// compiled from. Nothing further is claimed of it.
#[verifier::external_body]
fn regex_as_str(re: &regex::Regex) -> (r: &str) {
    re.as_str()
}

impl AppInhibitPattern {
    /// The pattern as shown to users: the literal itself, or the regex source
    /// behind a marker. The regex source itself is held by the outside crate,
    /// so of that case only the marker prefix is stated.
    pub fn display_string(&self) -> (r: String)
        ensures
            self is Literal ==> r@ == self->Literal_0@,
            self is Regex ==> r@.len() >= "(regex) "@.len() && r@.subrange(
                0,
                "(regex) "@.len() as int,
            ) == "(regex) "@,
    {
        match self {
            AppInhibitPattern::Literal(s) => s.clone(),
            AppInhibitPattern::Regex(re) => {
                let mut out: String = "(regex) ".to_owned();
                out.append(regex_as_str(re));
                proof {
                    assert(out@.subrange(0, "(regex) "@.len() as int) =~= "(regex) "@);
                }
                out
            },
        }
    }
}

/// What to do when the lid closes.
#[derive(Debug, Clone, PartialEq, Eq, Hash)]
pub enum LidCloseAction {
    Ignore,
    LockScreen,
    Suspend,
    Custom(String),
}

impl LidCloseAction {
    /// The policy as shown to users.
    pub fn display_string(&self) -> (r: String)
        ensures
            *self is Ignore ==> r@ == "ignore"@,
            *self is LockScreen ==> r@ == "lock_screen"@,
            *self is Suspend ==> r@ == "suspend"@,
            *self is Custom ==> r@ == "custom: "@ + self->Custom_0@,
    {
        match self {
            LidCloseAction::Ignore => "ignore".to_owned(),
            LidCloseAction::LockScreen => "lock_screen".to_owned(),
            LidCloseAction::Suspend => "suspend".to_owned(),
            LidCloseAction::Custom(cmd) => {
                let mut out: String = "custom: ".to_owned();
                out.append(cmd.as_str());
                out
            },
        }
    }
}

/// What to do when the lid opens.
#[derive(Debug, Clone, PartialEq, Eq, Hash)]
pub enum LidOpenAction {
    Ignore,
    Wake,
    Custom(String),
}

impl LidOpenAction {
    /// The policy as shown to users.
    pub fn display_string(&self) -> (r: String)
        ensures
            *self is Ignore ==> r@ == "ignore"@,
            *self is Wake ==> r@ == "wake"@,
            *self is Custom ==> r@ == "custom: "@ + self->Custom_0@,
    {
        match self {
            LidOpenAction::Ignore => "ignore".to_owned(),
            LidOpenAction::Wake => "wake".to_owned(),
            LidOpenAction::Custom(cmd) => {
                let mut out: String = "custom: ".to_owned();
                out.append(cmd.as_str());
                out
            },
        }
    }
}

/// Which power-source profile is in effect.
#[derive(Debug, Clone, Copy, PartialEq, Eq, Hash, Structural)]
pub enum PowerProfile {
    Ac,
    Battery,
}

impl PowerProfile {
    /// The profile's name as the configuration and the control surface
    /// write it.
    pub fn name(&self) -> (r: &'static str)
        ensures
            *self is Ac ==> r@ == "ac"@,
            *self is Battery ==> r@ == "battery"@,
    {
        match self {
            PowerProfile::Ac => "ac",
            PowerProfile::Battery => "battery",
        }
    }
}

/// One loaded configuration snapshot: the two power-source action lists and
/// the policy fields. Swapped atomically on reload.
#[derive(Debug)]
pub struct StasisConfig {
    pub ac_actions: Vec<IdleActionBlock>,
    pub battery_actions: Vec<IdleActionBlock>,
    pub debounce_seconds: u8,
    pub inhibit_apps: Vec<AppInhibitPattern>,
    pub monitor_media: bool,
    pub ignore_remote_media: bool,
    pub media_blacklist: Vec<String>,
    pub pre_suspend_command: Option<String>,
    pub respect_wayland_inhibitors: bool,
    pub lid_close_action: LidCloseAction,
    pub lid_open_action: LidOpenAction,
}

/// Action blocks stand in ascending timeout order; ties keep declaration
/// order because nothing ever reorders a list.
pub open spec fn sorted_by_timeout(s: Seq<IdleActionBlock>) -> bool {
    forall|i: int, j: int| 0 <= i < j < s.len() ==> #[trigger] s[i].timeout <= #[trigger] s[j].timeout
}

/// Two lists with pointwise equal timeouts are sorted together: stamping or
/// clearing trigger state never disturbs the ordering invariant.
pub proof fn lemma_sorted_pointwise_timeouts(a: Seq<IdleActionBlock>, b: Seq<IdleActionBlock>)
    requires
        a.len() == b.len(),
        sorted_by_timeout(a),
        forall|i: int| 0 <= i < a.len() ==> (#[trigger] b[i]).timeout == a[i].timeout,
    ensures
        sorted_by_timeout(b),
{
    assert forall|p: int, q: int|
        0 <= p < q < b.len() implies #[trigger] b[p].timeout <= #[trigger] b[q].timeout by {
        assert(a[p].timeout <= a[q].timeout);
    }
}

/// Checks the ordering invariant of one action list, so that unverified
/// callers can test it before handing the list to the engine.
pub fn actions_sorted(actions: &Vec<IdleActionBlock>) -> (r: bool)
    ensures
        r == sorted_by_timeout(actions@),
{
    let mut i: usize = 1;
    while i < actions.len()
        invariant
            1 <= i,
            forall|p: int, q: int|
                0 <= p < q < i && q < actions@.len() ==> #[trigger] actions@[p].timeout
                    <= #[trigger] actions@[q].timeout,
        decreases actions@.len() - i,
    {
        if actions[i - 1].timeout > actions[i].timeout {
            proof {
                assert(actions@[i - 1].timeout > actions@[i as int].timeout);
            }
            return false;
        }
        proof {
            assert(forall|p: int|
                0 <= p < i - 1 ==> #[trigger] actions@[p].timeout <= actions@[i - 1].timeout);
        }
        i += 1;
    }
    true
}

} // verus!
