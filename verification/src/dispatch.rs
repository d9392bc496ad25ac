use vstd::prelude::*;

verus! {

use crate::engine::EngineState;
use crate::engine::any_triggered;
use crate::engine::find_by_kind;
use crate::engine::first_not_due;
use crate::engine::fired_indices;
use crate::engine::commands_of;
use crate::engine::instant_commands;
use crate::engine::lemma_instant_commands_agree;
use crate::engine::resume_commands_rev;
use crate::engine::same_core;
use crate::engine::spec_debounce_ok;
use crate::model::IdleAction;
use crate::model::IdleActionBlock;
use crate::model::LidCloseAction;
use crate::model::LidOpenAction;
use crate::model::PowerProfile;
use crate::model::spec_effective_command;
use crate::model::with_cleared;
use crate::model::with_triggered;

/// The closed vocabulary of external events the engine reacts to. Each
/// producer translates what it observes into one of these and hands it to
/// `handle_event`.
#[derive(Debug, Clone, Copy, PartialEq, Eq, Structural)]
pub enum Event {
    /// The system is about to sleep.
    Suspend,
    /// The system woke up.
    Wake,
    /// The laptop lid closed.
    LidClosed,
    /// The laptop lid opened.
    LidOpened,
    /// The session was locked externally.
    LoginctlLock,
    /// The session was unlocked externally.
    LoginctlUnlock,
    /// The power source changed; `on_battery` is the new reading.
    PowerSourceChanged { on_battery: bool },
    /// The user toggled the manual inhibit.
    InhibitToggled,
    /// A configured blocking application started or stopped running.
    AppInhibitorChanged { running: bool },
}

/// Every block of `acts` with its trigger timestamp cleared.
pub open spec fn cleared_all(acts: Seq<IdleActionBlock>) -> Seq<IdleActionBlock> {
    Seq::new(acts.len(), |i: int| with_cleared(acts[i]))
}

/// Every instant block of `acts` stamped with `now`; timed blocks untouched.
pub open spec fn instants_triggered(acts: Seq<IdleActionBlock>, now: u64) -> Seq<IdleActionBlock> {
    Seq::new(
        acts.len(),
        |i: int|
            if acts[i].timeout == 0 {
                with_triggered(acts[i], now)
            } else {
                acts[i]
            },
    )
}

/// The state effect and action effect of one external event, applied
/// atomically: the fixed transition table of the dispatcher. Returns the
/// commands the caller must execute, in order.
#[verifier::rlimit(80)]
pub fn handle_event(state: &mut EngineState, event: Event, now: u64) -> (cmds: Vec<String>)
    requires
        old(state).wf(),
    ensures
        final(state).wf(),
        match event {
            Event::Suspend => *final(state) == (EngineState {
                paused: true,
                wake_pending: true,
                ..*old(state)
            }) && cmds@.len() == 0,
            Event::Wake => ({
                &&& !final(state).paused
                &&& final(state).last_activity == now
                &&& final(state).wake_pending
                &&& final(state).manually_paused == old(state).manually_paused
                &&& final(state).config == old(state).config
                &&& final(state).current_profile == old(state).current_profile
                &&& final(state).on_battery == old(state).on_battery
                &&& final(state).is_laptop == old(state).is_laptop
                &&& final(state).start_time == old(state).start_time
                &&& final(state).externally_locked == old(state).externally_locked
                &&& final(state).action_index == 0
                &&& final(state).actions@ == cleared_all(old(state).actions@)
                &&& cmds.deep_view() == resume_commands_rev(
                    old(state).actions@,
                    old(state).actions@.len() as int,
                )
            }),
            Event::LidClosed => match old(state).config.lid_close_action {
                LidCloseAction::Ignore => *final(state) == *old(state) && cmds@.len() == 0,
                LidCloseAction::LockScreen => fired_by_kind_effect(
                    *old(state),
                    *final(state),
                    IdleAction::LockScreen,
                    now,
                    cmds.deep_view(),
                ),
                LidCloseAction::Suspend => if old(state).paused {
                    *final(state) == *old(state) && cmds@.len() == 0
                } else {
                    fired_by_kind_effect(
                        *old(state),
                        *final(state),
                        IdleAction::Suspend,
                        now,
                        cmds.deep_view(),
                    )
                },
                LidCloseAction::Custom(c) => *final(state) == *old(state) && cmds.deep_view()
                    == seq![c@],
            },
            Event::LidOpened => match old(state).config.lid_open_action {
                LidOpenAction::Ignore => *final(state) == *old(state) && cmds@.len() == 0,
                LidOpenAction::Wake => ({
                    &&& !final(state).paused
                    &&& final(state).last_activity == now
                    &&& final(state).wake_pending
                    &&& final(state).manually_paused == old(state).manually_paused
                    &&& final(state).config == old(state).config
                    &&& final(state).current_profile == old(state).current_profile
                    &&& final(state).on_battery == old(state).on_battery
                    &&& final(state).is_laptop == old(state).is_laptop
                    &&& final(state).start_time == old(state).start_time
                    &&& final(state).externally_locked == old(state).externally_locked
                    &&& final(state).action_index == 0
                    &&& final(state).actions@ == cleared_all(old(state).actions@)
                    &&& cmds.deep_view() == resume_commands_rev(
                        old(state).actions@,
                        old(state).actions@.len() as int,
                    )
                }),
                LidOpenAction::Custom(c) => *final(state) == *old(state) && cmds.deep_view()
                    == seq![c@],
            },
            Event::LoginctlLock => *final(state) == (EngineState {
                externally_locked: true,
                ..*old(state)
            }) && cmds@.len() == 0,
            Event::LoginctlUnlock => ({
                &&& !final(state).externally_locked
                &&& final(state).last_activity == now
                &&& final(state).wake_pending
                &&& final(state).paused == old(state).paused
                &&& final(state).manually_paused == old(state).manually_paused
                &&& final(state).config == old(state).config
                &&& final(state).current_profile == old(state).current_profile
                &&& final(state).on_battery == old(state).on_battery
                &&& final(state).is_laptop == old(state).is_laptop
                &&& final(state).start_time == old(state).start_time
                &&& final(state).action_index == 0
                &&& final(state).actions@ == cleared_all(old(state).actions@)
                &&& cmds@.len() == 0
            }),
            Event::PowerSourceChanged { on_battery } => ({
                let target = if on_battery {
                    PowerProfile::Battery
                } else {
                    PowerProfile::Ac
                };
                if !old(state).is_laptop {
                    *final(state) == *old(state) && cmds@.len() == 0
                } else if old(state).current_profile != Some(target) {
                    let src = if on_battery {
                        old(state).config.battery_actions@
                    } else {
                        old(state).config.ac_actions@
                    };
                    &&& final(state).current_profile == Some(target)
                    &&& final(state).on_battery == Some(on_battery)
                    &&& final(state).action_index == 0
                    &&& final(state).wake_pending
                    &&& final(state).paused == old(state).paused
                    &&& final(state).manually_paused == old(state).manually_paused
                    &&& final(state).config == old(state).config
                    &&& final(state).is_laptop == old(state).is_laptop
                    &&& final(state).last_activity == old(state).last_activity
                    &&& final(state).start_time == old(state).start_time
                    &&& final(state).externally_locked == old(state).externally_locked
                    &&& final(state).actions@ == instants_triggered(cleared_all(src), now)
                    &&& cmds.deep_view() == instant_commands(src, 0)
                } else {
                    &&& final(state).current_profile == old(state).current_profile
                    &&& final(state).on_battery == Some(on_battery)
                    &&& final(state).action_index == old(state).action_index
                    &&& final(state).wake_pending == old(state).wake_pending
                    &&& final(state).paused == old(state).paused
                    &&& final(state).manually_paused == old(state).manually_paused
                    &&& final(state).config == old(state).config
                    &&& final(state).is_laptop == old(state).is_laptop
                    &&& final(state).last_activity == old(state).last_activity
                    &&& final(state).start_time == old(state).start_time
                    &&& final(state).externally_locked == old(state).externally_locked
                    &&& final(state).actions@ == instants_triggered(old(state).actions@, now)
                    &&& cmds.deep_view() == instant_commands(old(state).actions@, 0)
                }
            }),
            Event::InhibitToggled => *final(state) == (EngineState {
                manually_paused: !old(state).manually_paused,
                wake_pending: true,
                ..*old(state)
            }) && cmds@.len() == 0,
            Event::AppInhibitorChanged { running } => *final(state) == (EngineState {
                paused: running,
                wake_pending: true,
                ..*old(state)
            }) && cmds@.len() == 0,
        },
{
    match event {
        Event::Suspend => {
            state.paused = true;
            state.wake_pending = true;
            Vec::new()
        },
        Event::Wake => {
            state.paused = false;
            state.last_activity = now;
            state.wake_pending = true;
            let cmds = state.on_resume(now);
            proof {
                assert(state.actions@ =~= cleared_all(old(state).actions@));
            }
            cmds
        },
        Event::LidClosed => {
            if matches!(state.config.lid_close_action, LidCloseAction::Ignore) {
                Vec::new()
            } else if matches!(state.config.lid_close_action, LidCloseAction::LockScreen) {
                fire_by_kind(state, IdleAction::LockScreen, now)
            } else if matches!(state.config.lid_close_action, LidCloseAction::Suspend) {
                if state.paused {
                    Vec::new()
                } else {
                    fire_by_kind(state, IdleAction::Suspend, now)
                }
            } else {
                let mut v: Vec<String> = Vec::new();
                match &state.config.lid_close_action {
                    LidCloseAction::Custom(c) => {
                        let cmd = c.clone();
                        v.push(cmd);
                    },
                    _ => {},
                }
                proof {
                    assert(v.deep_view() =~= seq![
                        old(state).config.lid_close_action->Custom_0@,
                    ]);
                }
                v
            }
        },
        Event::LidOpened => {
            if matches!(state.config.lid_open_action, LidOpenAction::Ignore) {
                Vec::new()
            } else if matches!(state.config.lid_open_action, LidOpenAction::Wake) {
                state.paused = false;
                state.last_activity = now;
                state.wake_pending = true;
                let cmds = state.on_resume(now);
                proof {
                    assert(state.actions@ =~= cleared_all(old(state).actions@));
                }
                cmds
            } else {
                let mut v: Vec<String> = Vec::new();
                match &state.config.lid_open_action {
                    LidOpenAction::Custom(c) => {
                        let cmd = c.clone();
                        v.push(cmd);
                    },
                    _ => {},
                }
                proof {
                    assert(v.deep_view() =~= seq![old(state).config.lid_open_action->Custom_0@]);
                }
                v
            }
        },
        Event::LoginctlLock => {
            state.externally_locked = true;
            Vec::new()
        },
        Event::LoginctlUnlock => {
            state.externally_locked = false;
            state.last_activity = now;
            state.wake_pending = true;
            state.reset_all();
            proof {
                assert(state.actions@ =~= cleared_all(old(state).actions@));
            }
            Vec::new()
        },
        Event::PowerSourceChanged { on_battery } => {
            if !state.is_laptop {
                Vec::new()
            } else {
                state.on_battery = Some(on_battery);
                let target = if on_battery {
                    PowerProfile::Battery
                } else {
                    PowerProfile::Ac
                };
                let switch = match state.current_profile {
                    None => true,
                    Some(PowerProfile::Ac) => on_battery,
                    Some(PowerProfile::Battery) => !on_battery,
                };
                if switch {
                    state.select_profile(target);
                }
                let ghost mid = state.actions@;
                state.reset_instant_actions();
                proof {
                    assert(state.actions@ =~= Seq::new(
                        mid.len(),
                        |i: int|
                            if mid[i].timeout == 0 {
                                with_cleared(mid[i])
                            } else {
                                mid[i]
                            },
                    ));
                }
                let ghost pre = state.actions@;
                let cmds = state.trigger_instant_actions(now);
                proof {
                    if switch {
                        let src = if on_battery {
                            old(state).config.battery_actions@
                        } else {
                            old(state).config.ac_actions@
                        };
                        assert(mid =~= cleared_all(src));
                        let target_seq = instants_triggered(cleared_all(src), now);
                        assert forall|i: int| 0 <= i < state.actions@.len() implies state.actions@[i]
                            == target_seq[i] by {
                            assert(mid[i] == with_cleared(src[i]));
                            assert(pre[i] == (if mid[i].timeout == 0 {
                                with_cleared(mid[i])
                            } else {
                                mid[i]
                            }));
                            assert(state.actions@[i] == (if pre[i].timeout == 0 {
                                with_triggered(pre[i], now)
                            } else {
                                pre[i]
                            }));
                        }
                        assert(state.actions@ =~= target_seq);
                        lemma_instant_commands_agree(src, pre, 0);
                        assert(cmds.deep_view() == instant_commands(src, 0));
                    } else {
                        assert(mid == old(state).actions@);
                        let target_seq = instants_triggered(old(state).actions@, now);
                        assert forall|i: int| 0 <= i < state.actions@.len() implies state.actions@[i]
                            == target_seq[i] by {
                            assert(pre[i] == (if mid[i].timeout == 0 {
                                with_cleared(mid[i])
                            } else {
                                mid[i]
                            }));
                            assert(state.actions@[i] == (if pre[i].timeout == 0 {
                                with_triggered(pre[i], now)
                            } else {
                                pre[i]
                            }));
                        }
                        assert(state.actions@ =~= target_seq);
                        lemma_instant_commands_agree(old(state).actions@, pre, 0);
                        assert(cmds.deep_view() == instant_commands(old(state).actions@, 0));
                    }
                }
                cmds
            }
        },
        Event::InhibitToggled => {
            state.toggle_manual_pause();
            Vec::new()
        },
        Event::AppInhibitorChanged { running } => {
            state.paused = running;
            state.wake_pending = true;
            Vec::new()
        },
    }
}

/// The effect of a lid policy that fires the first action of one kind: with
/// such an action at position `i`, and its last firing outside the debounce
/// window, only that block's trigger timestamp changes and its effective
/// command is returned. With none, or with the action still inside the
/// window — a flapping lid sends duplicates in quick succession — nothing
/// happens.
pub open spec fn fired_by_kind_effect(
    pre: EngineState,
    post: EngineState,
    kind: IdleAction,
    now: u64,
    cmds: Seq<Seq<char>>,
) -> bool {
    match find_by_kind(pre.actions@, kind, 0) {
        Some(i) => if spec_debounce_ok(pre.actions@[i].last_triggered, now, pre.debounce()) {
            &&& same_core(post, pre)
            &&& post.action_index == pre.action_index
            &&& post.actions@ == pre.actions@.update(i, with_triggered(pre.actions@[i], now))
            &&& cmds == seq![spec_effective_command(pre.actions@[i])]
        } else {
            post == pre && cmds.len() == 0
        },
        None => post == pre && cmds.len() == 0,
    }
}

fn fire_by_kind(state: &mut EngineState, kind: IdleAction, now: u64) -> (cmds: Vec<String>)
    requires
        old(state).wf(),
    ensures
        final(state).wf(),
        fired_by_kind_effect(*old(state), *final(state), kind, now, cmds.deep_view()),
{
    let mut v: Vec<String> = Vec::new();
    let r = state.trigger_first_of_kind(kind, now);
    match r {
        Some(c) => {
            v.push(c);
            proof {
                let i = find_by_kind(old(state).actions@, kind, 0)->0;
                assert(v.deep_view() =~= seq![
                    spec_effective_command(old(state).actions@[i]),
                ]);
            }
        },
        None => {
            proof {
                assert(v.deep_view() =~= Seq::<Seq<char>>::empty());
            }
        },
    }
    v
}

/// One pass of the scheduler loop, after it has read the idle duration:
/// fresh activity in the middle of an excursion resumes (undoes) it;
/// otherwise the pass evaluates due actions. Returns the commands the
/// caller must execute, in order.
pub fn scheduler_step(state: &mut EngineState, now: u64, idle_secs: u64) -> (cmds: Vec<String>)
    requires
        old(state).wf(),
    ensures
        final(state).wf(),
        ({
            let fresh_activity = idle_secs == 0 && (old(state).action_index > 0 || any_triggered(
                old(state).actions@,
            ));
            if fresh_activity {
                &&& !final(state).paused == !old(state).paused
                &&& final(state).last_activity == now
                &&& final(state).manually_paused == old(state).manually_paused
                &&& final(state).paused == old(state).paused
                &&& final(state).config == old(state).config
                &&& final(state).current_profile == old(state).current_profile
                &&& final(state).on_battery == old(state).on_battery
                &&& final(state).is_laptop == old(state).is_laptop
                &&& final(state).start_time == old(state).start_time
                &&& final(state).externally_locked == old(state).externally_locked
                &&& final(state).wake_pending == old(state).wake_pending
                &&& final(state).action_index == 0
                &&& final(state).actions@ == cleared_all(old(state).actions@)
                &&& cmds.deep_view() == resume_commands_rev(
                    old(state).actions@,
                    old(state).actions@.len() as int,
                )
            } else if old(state).suppressed() {
                *final(state) == *old(state) && cmds@.len() == 0
            } else {
                let acts = old(state).actions@;
                let lo = old(state).action_index as int;
                let hi = first_not_due(acts, lo, idle_secs);
                let deb = old(state).debounce();
                &&& same_core(*final(state), *old(state))
                &&& final(state).action_index == hi
                &&& final(state).actions@.len() == acts.len()
                &&& (forall|i: int|
                    (0 <= i < lo || hi <= i < acts.len()) ==> final(state).actions@[i] == acts[i])
                &&& (forall|i: int|
                    lo <= i < hi ==> final(state).actions@[i] == (if spec_debounce_ok(
                        (#[trigger] acts[i]).last_triggered,
                        now,
                        deb,
                    ) {
                        with_triggered(acts[i], now)
                    } else {
                        acts[i]
                    }))
                &&& cmds.deep_view() == commands_of(acts, fired_indices(acts, lo, hi, now, deb))
            }
        }),
{
    let mid_excursion = state.action_index > 0 || state.any_action_triggered();
    if idle_secs == 0 && mid_excursion {
        state.last_activity = now;
        let cmds = state.on_resume(now);
        proof {
            assert(state.actions@ =~= cleared_all(old(state).actions@));
        }
        cmds
    } else {
        state.evaluate(now, idle_secs)
    }
}

} // verus!
