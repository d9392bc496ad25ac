use vstd::prelude::*;

verus! {

use vstd::string::StrSliceExecFns;
use vstd::string::StringExecFns;
use crate::engine::EngineState;
use crate::engine::all_commands;
use crate::engine::find_by_name;
use crate::engine::names_of;
use crate::engine::same_core;
use crate::model::spec_effective_command;
use crate::model::with_triggered;
use crate::text::is_trimmed_of;
use crate::text::lemma_trim_unique;
use crate::text::spec_dec;
use crate::text::spec_join_from;
use crate::text::join_strings;
use crate::text::str_eq;
use crate::text::str_starts_with;
use crate::text::trim_str;
use crate::text::u64_to_dec;
use crate::utils::format_duration;
use crate::utils::spec_format_duration;

/// One textual command of the control surface, parsed.
#[derive(Debug, Clone, PartialEq, Eq)]
pub enum ControlCommand {
    Reload,
    Pause,
    Resume,
    Stop,
    ToggleInhibit,
    Info(bool),
    ListActions,
    TriggerAll,
    Trigger(String),
    TriggerMissingName,
    Unknown(String),
}

/// The shape a raw command line parses to. A trigger command carries its
/// raw argument (everything after the keyword), still untrimmed.
pub enum CommandShape {
    Reload,
    Pause,
    Resume,
    Stop,
    ToggleInhibit,
    Info(bool),
    ListActions,
    TriggerArg(Seq<char>),
    Unknown(Seq<char>),
}

/// How one already-trimmed command line is read, mirroring the order the
/// implementation tries the forms in.
pub open spec fn spec_parse(c: Seq<char>) -> CommandShape {
    if c == "reload"@ {
        CommandShape::Reload
    } else if c == "pause"@ {
        CommandShape::Pause
    } else if c == "resume"@ {
        CommandShape::Resume
    } else if "trigger "@.len() <= c.len() && c.subrange(0, "trigger "@.len() as int)
        == "trigger "@ {
        CommandShape::TriggerArg(c.subrange("trigger "@.len() as int, c.len() as int))
    } else if c == "stop"@ {
        CommandShape::Stop
    } else if c == "toggle_inhibit"@ {
        CommandShape::ToggleInhibit
    } else if c == "info"@ {
        CommandShape::Info(false)
    } else if c == "info --json"@ {
        CommandShape::Info(true)
    } else if c == "list_actions"@ {
        CommandShape::ListActions
    } else {
        CommandShape::Unknown(c)
    }
}

/// Parses one trimmed command line. A trigger command's argument is trimmed
/// again; an empty argument, the word `all`, and an action name are told
/// apart here.
pub fn parse_control_command(cmd: &str) -> (r: ControlCommand)
    ensures
        match spec_parse(cmd@) {
            CommandShape::Reload => r is Reload,
            CommandShape::Pause => r is Pause,
            CommandShape::Resume => r is Resume,
            CommandShape::Stop => r is Stop,
            CommandShape::ToggleInhibit => r is ToggleInhibit,
            CommandShape::Info(json) => r is Info && r->Info_0 == json,
            CommandShape::ListActions => r is ListActions,
            CommandShape::TriggerArg(rest) => forall|t: Seq<char>|
                is_trimmed_of(t, rest) ==> (if t.len() == 0 {
                    r is TriggerMissingName
                } else if t == "all"@ {
                    r is TriggerAll
                } else {
                    r is Trigger && r->Trigger_0@ == t
                }),
            CommandShape::Unknown(c) => r is Unknown && r->Unknown_0@ == c,
        },
{
    if str_eq(cmd, "reload") {
        ControlCommand::Reload
    } else if str_eq(cmd, "pause") {
        ControlCommand::Pause
    } else if str_eq(cmd, "resume") {
        ControlCommand::Resume
    } else if str_starts_with(cmd, "trigger ") {
        proof {
            reveal_strlit("trigger ");
        }
        let n = cmd.unicode_len();
        let rest = cmd.substring_char(8, n);
        let name = trim_str(rest);
        proof {
            assert forall|t: Seq<char>|
                is_trimmed_of(t, cmd@.subrange("trigger "@.len() as int, cmd@.len() as int))
                    implies t == name@ by {
                lemma_trim_unique(rest@, t, name@);
            }
        }
        if name.unicode_len() == 0 {
            ControlCommand::TriggerMissingName
        } else if str_eq(name, "all") {
            ControlCommand::TriggerAll
        } else {
            ControlCommand::Trigger(name.to_owned())
        }
    } else if str_eq(cmd, "stop") {
        ControlCommand::Stop
    } else if str_eq(cmd, "toggle_inhibit") {
        ControlCommand::ToggleInhibit
    } else if str_eq(cmd, "info") {
        ControlCommand::Info(false)
    } else if str_eq(cmd, "info --json") {
        ControlCommand::Info(true)
    } else if str_eq(cmd, "list_actions") {
        ControlCommand::ListActions
    } else {
        ControlCommand::Unknown(cmd.to_owned())
    }
}

/// The structured status object the control surface returns for the toggle
/// and JSON info commands.
pub struct StatusInfo {
    pub text: String,
    pub alt: String,
    pub tooltip: String,
}

pub open spec fn spec_bool_text(b: bool) -> Seq<char> {
    if b {
        "true"@
    } else {
        "false"@
    }
}

pub open spec fn spec_info_header(inhibited: bool) -> Seq<char> {
    if inhibited {
        "Idle inhibited"@
    } else {
        "Idle active"@
    }
}

/// The status icon: manual inhibition wins, any inhibition comes second,
/// else the engine is active.
pub open spec fn spec_info_alt(manually_paused: bool, inhibited: bool) -> Seq<char> {
    if manually_paused {
        "manually_inhibited"@
    } else if inhibited {
        "idle_inhibited"@
    } else {
        "idle_active"@
    }
}

/// The tooltip of the JSON status object: the headline and the raw state
/// fields, one per line.
pub open spec fn spec_info_tooltip(
    inhibited: bool,
    idle_secs: u64,
    uptime_secs: u64,
    paused: bool,
    manually_paused: bool,
    app_blocking: bool,
) -> Seq<char> {
    spec_info_header(inhibited) + "\nIdle time: "@ + spec_dec(idle_secs as nat) + "s\nUptime: "@
        + spec_dec(uptime_secs as nat) + "s\nPaused: "@ + spec_bool_text(paused)
        + "\nManually paused: "@ + spec_bool_text(manually_paused) + "\nApp blocking: "@
        + spec_bool_text(app_blocking)
}

/// The plain-text status reply, with durations in human form.
pub open spec fn spec_info_text(
    inhibited: bool,
    idle_secs: u64,
    uptime_secs: u64,
    paused: bool,
    manually_paused: bool,
    app_blocking: bool,
) -> Seq<char> {
    spec_info_header(inhibited) + "\nIdle time: "@ + spec_format_duration(idle_secs)
        + "\nUptime: "@ + spec_format_duration(uptime_secs) + "\nPaused: "@ + spec_bool_text(
        paused,
    ) + "\nManually paused: "@ + spec_bool_text(manually_paused) + "\nApp blocking: "@
        + spec_bool_text(app_blocking)
}

fn bool_text(b: bool) -> (r: &'static str)
    ensures
        r@ == spec_bool_text(b),
{
    if b {
        "true"
    } else {
        "false"
    }
}

fn info_header(inhibited: bool) -> (r: &'static str)
    ensures
        r@ == spec_info_header(inhibited),
{
    if inhibited {
        "Idle inhibited"
    } else {
        "Idle active"
    }
}

pub fn info_tooltip(
    inhibited: bool,
    idle_secs: u64,
    uptime_secs: u64,
    paused: bool,
    manually_paused: bool,
    app_blocking: bool,
) -> (r: String)
    ensures
        r@ == spec_info_tooltip(
            inhibited,
            idle_secs,
            uptime_secs,
            paused,
            manually_paused,
            app_blocking,
        ),
{
    let mut s: String = info_header(inhibited).to_owned();
    s.append("\nIdle time: ");
    let d = u64_to_dec(idle_secs);
    s.append(d.as_str());
    s.append("s\nUptime: ");
    let u = u64_to_dec(uptime_secs);
    s.append(u.as_str());
    s.append("s\nPaused: ");
    s.append(bool_text(paused));
    s.append("\nManually paused: ");
    s.append(bool_text(manually_paused));
    s.append("\nApp blocking: ");
    s.append(bool_text(app_blocking));
    s
}

pub fn info_text(
    inhibited: bool,
    idle_secs: u64,
    uptime_secs: u64,
    paused: bool,
    manually_paused: bool,
    app_blocking: bool,
) -> (r: String)
    ensures
        r@ == spec_info_text(
            inhibited,
            idle_secs,
            uptime_secs,
            paused,
            manually_paused,
            app_blocking,
        ),
{
    let mut s: String = info_header(inhibited).to_owned();
    s.append("\nIdle time: ");
    let d = format_duration(idle_secs);
    s.append(d.as_str());
    s.append("\nUptime: ");
    let u = format_duration(uptime_secs);
    s.append(u.as_str());
    s.append("\nPaused: ");
    s.append(bool_text(paused));
    s.append("\nManually paused: ");
    s.append(bool_text(manually_paused));
    s.append("\nApp blocking: ");
    s.append(bool_text(app_blocking));
    s
}

/// The status object for the running engine, as the info command reports
/// it; `app_blocking` is what the external inhibitor checker observed.
pub fn info_status(
    state: &EngineState,
    app_blocking: bool,
    idle_secs: u64,
    uptime_secs: u64,
) -> (r: StatusInfo)
    ensures
        r.text@ == ""@,
        r.alt@ == spec_info_alt(
            state.manually_paused,
            state.paused || app_blocking || state.manually_paused,
        ),
        r.tooltip@ == spec_info_tooltip(
            state.paused || app_blocking || state.manually_paused,
            idle_secs,
            uptime_secs,
            state.paused,
            state.manually_paused,
            app_blocking,
        ),
{
    let inhibited = state.paused || app_blocking || state.manually_paused;
    let alt: String = if state.manually_paused {
        "manually_inhibited".to_owned()
    } else if inhibited {
        "idle_inhibited".to_owned()
    } else {
        "idle_active".to_owned()
    };
    StatusInfo {
        text: "".to_owned(),
        alt,
        tooltip: info_tooltip(
            inhibited,
            idle_secs,
            uptime_secs,
            state.paused,
            state.manually_paused,
            app_blocking,
        ),
    }
}

/// Flips the manual inhibit and reports the toggle's outcome: the status
/// object describes the state being left, as the control surface shows it.
pub fn toggle_inhibit(state: &mut EngineState) -> (r: StatusInfo)
    requires
        old(state).wf(),
    ensures
        final(state).wf(),
        *final(state) == (EngineState {
            manually_paused: !old(state).manually_paused,
            wake_pending: true,
            ..*old(state)
        }),
        r.text@ == ""@,
        old(state).manually_paused ==> r.alt@ == "idle_active"@ && r.tooltip@
            == "Idle inhibition cleared"@,
        !old(state).manually_paused ==> r.alt@ == "manually_inhibited"@ && r.tooltip@
            == "Idle inhibition active"@,
{
    let was = state.manually_paused;
    state.toggle_manual_pause();
    if was {
        StatusInfo {
            text: "".to_owned(),
            alt: "idle_active".to_owned(),
            tooltip: "Idle inhibition cleared".to_owned(),
        }
    } else {
        StatusInfo {
            text: "".to_owned(),
            alt: "manually_inhibited".to_owned(),
            tooltip: "Idle inhibition active".to_owned(),
        }
    }
}

/// What one control command left behind: the textual reply, the status
/// object where the command returns one, the commands to execute, and the
/// requests only the caller can carry out (stopping the process, reloading
/// the configuration file).
pub struct ControlOutcome {
    pub reply: String,
    pub status: Option<StatusInfo>,
    pub run: Vec<String>,
    pub stop_requested: bool,
    pub reload_requested: bool,
}

/// An outcome that asks nothing of the caller beyond sending the reply.
pub open spec fn plain_outcome(out: ControlOutcome) -> bool {
    &&& out.status is None
    &&& out.run@.len() == 0
    &&& !out.stop_requested
    &&& !out.reload_requested
}

/// Applies one parsed control command to the engine. Reloading and stopping
/// are requested of the caller, which owns the configuration file and the
/// process; everything else happens here.
#[verifier::rlimit(80)]
pub fn apply_control_command(
    state: &mut EngineState,
    cmd: &ControlCommand,
    now: u64,
    idle_secs: u64,
    uptime_secs: u64,
    app_blocking: bool,
) -> (out: ControlOutcome)
    requires
        old(state).wf(),
    ensures
        final(state).wf(),
        match *cmd {
            ControlCommand::Reload => *final(state) == *old(state) && out.reload_requested
                && !out.stop_requested && out.run@.len() == 0 && out.status is None
                && out.reply@ == ""@,
            ControlCommand::Pause => *final(state) == (EngineState {
                manually_paused: true,
                wake_pending: true,
                ..*old(state)
            }) && plain_outcome(out) && out.reply@ == "Idle manager paused"@,
            ControlCommand::Resume => *final(state) == (EngineState {
                manually_paused: false,
                last_activity: now,
                wake_pending: true,
                ..*old(state)
            }) && plain_outcome(out) && out.reply@ == "Idle manager resumed"@,
            ControlCommand::Stop => *final(state) == *old(state) && out.stop_requested
                && !out.reload_requested && out.run@.len() == 0 && out.status is None
                && out.reply@ == "Stopping Stasis..."@,
            ControlCommand::ToggleInhibit => ({
                &&& *final(state) == (EngineState {
                    manually_paused: !old(state).manually_paused,
                    wake_pending: true,
                    ..*old(state)
                })
                &&& out.reply@ == "Manual inhibit toggled"@
                &&& out.run@.len() == 0 && !out.stop_requested && !out.reload_requested
                &&& out.status is Some
                &&& out.status->0.text@ == ""@
                &&& (old(state).manually_paused ==> out.status->0.alt@ == "idle_active"@
                    && out.status->0.tooltip@ == "Idle inhibition cleared"@)
                &&& (!old(state).manually_paused ==> out.status->0.alt@ == "manually_inhibited"@
                    && out.status->0.tooltip@ == "Idle inhibition active"@)
            }),
            ControlCommand::Info(json) => ({
                &&& *final(state) == *old(state)
                &&& out.run@.len() == 0 && !out.stop_requested && !out.reload_requested
                &&& out.reply@ == spec_info_text(
                    old(state).suppressed() || app_blocking,
                    idle_secs,
                    uptime_secs,
                    old(state).paused,
                    old(state).manually_paused,
                    app_blocking,
                )
                &&& (json ==> out.status is Some && out.status->0.text@ == ""@
                    && out.status->0.alt@ == spec_info_alt(
                    old(state).manually_paused,
                    old(state).suppressed() || app_blocking,
                ) && out.status->0.tooltip@ == spec_info_tooltip(
                    old(state).suppressed() || app_blocking,
                    idle_secs,
                    uptime_secs,
                    old(state).paused,
                    old(state).manually_paused,
                    app_blocking,
                ))
                &&& (!json ==> out.status is None)
            }),
            ControlCommand::ListActions => ({
                &&& *final(state) == *old(state)
                &&& plain_outcome(out)
                &&& (old(state).actions@.len() == 0 ==> out.reply@ == "No actions available"@)
                &&& (old(state).actions@.len() > 0 ==> out.reply@ == spec_join_from(
                    names_of(old(state).actions@),
                    0,
                    ", "@,
                ))
            }),
            ControlCommand::TriggerAll => ({
                &&& same_core(*final(state), *old(state))
                &&& final(state).action_index == old(state).action_index
                &&& final(state).actions@.len() == old(state).actions@.len()
                &&& (forall|i: int|
                    0 <= i < old(state).actions@.len() ==> final(state).actions@[i]
                        == with_triggered(#[trigger] old(state).actions@[i], now))
                &&& out.run.deep_view() == all_commands(old(state).actions@, 0)
                &&& out.status is None && !out.stop_requested && !out.reload_requested
                &&& out.reply@ == "All idle actions triggered"@
            }),
            ControlCommand::Trigger(ref name) => match find_by_name(
                old(state).actions@,
                name@,
                0,
            ) {
                Some(i) => ({
                    &&& same_core(*final(state), *old(state))
                    &&& final(state).action_index == old(state).action_index
                    &&& final(state).actions@ == old(state).actions@.update(
                        i,
                        with_triggered(old(state).actions@[i], now),
                    )
                    &&& out.run.deep_view() == seq![
                        spec_effective_command(old(state).actions@[i]),
                    ]
                    &&& out.status is None && !out.stop_requested && !out.reload_requested
                    &&& out.reply@ == "Action '"@ + name@ + "' triggered successfully"@
                }),
                None => *final(state) == *old(state) && plain_outcome(out) && out.reply@
                    == "ERROR: Unknown action '"@ + name@ + "'"@,
            },
            ControlCommand::TriggerMissingName => *final(state) == *old(state) && plain_outcome(
                out,
            ) && out.reply@ == "ERROR: No action name provided"@,
            ControlCommand::Unknown(ref c) => *final(state) == *old(state) && plain_outcome(out)
                && out.reply@ == "ERROR: Unknown command '"@ + c@ + "'"@,
        },
{
    match cmd {
        ControlCommand::Reload => ControlOutcome {
            reply: "".to_owned(),
            status: None,
            run: Vec::new(),
            stop_requested: false,
            reload_requested: true,
        },
        ControlCommand::Pause => {
            state.pause();
            ControlOutcome {
                reply: "Idle manager paused".to_owned(),
                status: None,
                run: Vec::new(),
                stop_requested: false,
                reload_requested: false,
            }
        },
        ControlCommand::Resume => {
            state.resume(now);
            ControlOutcome {
                reply: "Idle manager resumed".to_owned(),
                status: None,
                run: Vec::new(),
                stop_requested: false,
                reload_requested: false,
            }
        },
        ControlCommand::Stop => ControlOutcome {
            reply: "Stopping Stasis...".to_owned(),
            status: None,
            run: Vec::new(),
            stop_requested: true,
            reload_requested: false,
        },
        ControlCommand::ToggleInhibit => {
            let status = toggle_inhibit(state);
            ControlOutcome {
                reply: "Manual inhibit toggled".to_owned(),
                status: Some(status),
                run: Vec::new(),
                stop_requested: false,
                reload_requested: false,
            }
        },
        ControlCommand::Info(json) => {
            let inhibited = state.paused || app_blocking || state.manually_paused;
            let reply = info_text(
                inhibited,
                idle_secs,
                uptime_secs,
                state.paused,
                state.manually_paused,
                app_blocking,
            );
            let status = if *json {
                Some(info_status(state, app_blocking, idle_secs, uptime_secs))
            } else {
                None
            };
            ControlOutcome {
                reply,
                status,
                run: Vec::new(),
                stop_requested: false,
                reload_requested: false,
            }
        },
        ControlCommand::ListActions => {
            let names = state.action_names();
            let reply = if names.len() == 0 {
                "No actions available".to_owned()
            } else {
                join_strings(&names, ", ")
            };
            ControlOutcome {
                reply,
                status: None,
                run: Vec::new(),
                stop_requested: false,
                reload_requested: false,
            }
        },
        ControlCommand::TriggerAll => {
            let run = state.trigger_all(now);
            ControlOutcome {
                reply: "All idle actions triggered".to_owned(),
                status: None,
                run,
                stop_requested: false,
                reload_requested: false,
            }
        },
        ControlCommand::Trigger(name) => match state.trigger_by_name(now, name.as_str()) {
            Ok(fired) => {
                let mut run: Vec<String> = Vec::new();
                run.push(fired);
                let mut reply: String = "Action '".to_owned();
                reply.append(name.as_str());
                reply.append("' triggered successfully");
                proof {
                    let i = find_by_name(old(state).actions@, name@, 0)->0;
                    assert(run.deep_view() =~= seq![
                        spec_effective_command(old(state).actions@[i]),
                    ]);
                }
                ControlOutcome {
                    reply,
                    status: None,
                    run,
                    stop_requested: false,
                    reload_requested: false,
                }
            },
            Err(_) => {
                let mut reply: String = "ERROR: Unknown action '".to_owned();
                reply.append(name.as_str());
                reply.append("'");
                ControlOutcome {
                    reply,
                    status: None,
                    run: Vec::new(),
                    stop_requested: false,
                    reload_requested: false,
                }
            },
        },
        ControlCommand::TriggerMissingName => ControlOutcome {
            reply: "ERROR: No action name provided".to_owned(),
            status: None,
            run: Vec::new(),
            stop_requested: false,
            reload_requested: false,
        },
        ControlCommand::Unknown(c) => {
            let mut reply: String = "ERROR: Unknown command '".to_owned();
            reply.append(c.as_str());
            reply.append("'");
            ControlOutcome {
                reply,
                status: None,
                run: Vec::new(),
                stop_requested: false,
                reload_requested: false,
            }
        },
    }
}

} // verus!

