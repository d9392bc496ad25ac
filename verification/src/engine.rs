use vstd::prelude::*;

verus! {

use crate::model::IdleAction;
use crate::model::IdleActionBlock;
use crate::model::PowerProfile;
use crate::model::StasisConfig;
use crate::model::lemma_sorted_pointwise_timeouts;
use crate::model::sorted_by_timeout;
use crate::model::spec_effective_command;
use crate::model::with_cleared;
use crate::model::with_triggered;
use crate::text::str_eq;

/// The error a manual trigger reports when the active profile holds no
/// action of the requested name.
#[derive(Debug, Clone, Copy, PartialEq, Eq, Structural)]
pub enum EngineError {
    UnknownAction,
}

/// The single mutable record of the daemon's session. It is owned by one
/// engine and mutated only through the operations below; callers serialise
/// access to it themselves.
pub struct EngineState {
    /// The loaded configuration snapshot.
    pub config: StasisConfig,
    /// Which power-source profile is in effect; `None` until one is chosen.
    pub current_profile: Option<PowerProfile>,
    /// The active profile's action blocks, carrying the per-action trigger
    /// state of the running idle excursion.
    pub actions: Vec<IdleActionBlock>,
    /// Cursor into `actions`: the next action expected to fire.
    pub action_index: usize,
    /// System-level suppression (suspend, lid policy, app inhibitor).
    pub paused: bool,
    /// User-requested suppression via the control surface.
    pub manually_paused: bool,
    /// Whether the machine runs on battery; `None` until first detected.
    pub on_battery: Option<bool>,
    /// Detected once at startup; desktops never switch profiles.
    pub is_laptop: bool,
    /// Timestamp of the most recent known user activity, in seconds.
    pub last_activity: u64,
    /// Process start timestamp, in seconds, for uptime reporting.
    pub start_time: u64,
    /// Whether the session is externally locked (informational).
    pub externally_locked: bool,
    /// Set when a transition changed something the scheduler loop waits on,
    /// so it re-evaluates without waiting for its next tick.
    pub wake_pending: bool,
}

/// Whether an action whose last firing was `last` may fire again at `now`
/// under the given debounce spacing.
pub open spec fn spec_debounce_ok(last: Option<u64>, now: u64, debounce: u64) -> bool {
    match last {
        None => true,
        Some(t) => t + debounce <= now,
    }
}

/// The first position at or after `start` whose action is not yet due at
/// idle duration `idle`, or the list's length if every one is due.
pub open spec fn first_not_due(acts: Seq<IdleActionBlock>, start: int, idle: u64) -> int
    decreases acts.len() - start when 0 <= start <= acts.len()
{
    if start >= acts.len() {
        acts.len() as int
    } else if acts[start].timeout > idle {
        start
    } else {
        first_not_due(acts, start + 1, idle)
    }
}

/// The positions in `[lo, hi)` whose actions pass the debounce test at
/// `now`, in ascending order: the actions one evaluation pass fires.
pub open spec fn fired_indices(
    acts: Seq<IdleActionBlock>,
    lo: int,
    hi: int,
    now: u64,
    debounce: u64,
) -> Seq<int>
    decreases hi - lo when lo <= hi
{
    if lo >= hi {
        Seq::empty()
    } else if spec_debounce_ok(acts[lo].last_triggered, now, debounce) {
        seq![lo] + fired_indices(acts, lo + 1, hi, now, debounce)
    } else {
        fired_indices(acts, lo + 1, hi, now, debounce)
    }
}

/// The commands of every instant action (zero timeout) from `i` on, in
/// declaration order.
pub open spec fn instant_commands(acts: Seq<IdleActionBlock>, i: int) -> Seq<Seq<char>>
    decreases acts.len() - i when 0 <= i <= acts.len()
{
    if i >= acts.len() {
        Seq::empty()
    } else if acts[i].timeout == 0 {
        seq![spec_effective_command(acts[i])] + instant_commands(acts, i + 1)
    } else {
        instant_commands(acts, i + 1)
    }
}

/// The commands of every action from `i` on, in declaration order.
pub open spec fn all_commands(acts: Seq<IdleActionBlock>, i: int) -> Seq<Seq<char>>
    decreases acts.len() - i when 0 <= i <= acts.len()
{
    if i >= acts.len() {
        Seq::empty()
    } else {
        seq![spec_effective_command(acts[i])] + all_commands(acts, i + 1)
    }
}

/// The resume commands of the triggered actions among `acts[0..hi]`, most
/// recently fired first: the reverse of the ascending firing order.
pub open spec fn resume_commands_rev(acts: Seq<IdleActionBlock>, hi: int) -> Seq<Seq<char>>
    decreases hi when hi <= acts.len()
{
    if hi <= 0 {
        Seq::empty()
    } else {
        let b = acts[hi - 1];
        (if b.last_triggered is Some && b.resume_command is Some {
            seq![b.resume_command->0@]
        } else {
            Seq::<Seq<char>>::empty()
        }) + resume_commands_rev(acts, hi - 1)
    }
}

/// The first position at or after `i` whose action bears `name`.
pub open spec fn find_by_name(acts: Seq<IdleActionBlock>, name: Seq<char>, i: int) -> Option<int>
    decreases acts.len() - i when 0 <= i <= acts.len()
{
    if i >= acts.len() {
        None
    } else if acts[i].name@ == name {
        Some(i)
    } else {
        find_by_name(acts, name, i + 1)
    }
}

/// The first position at or after `i` whose action is of kind `kind`.
pub open spec fn find_by_kind(acts: Seq<IdleActionBlock>, kind: IdleAction, i: int) -> Option<int>
    decreases acts.len() - i when 0 <= i <= acts.len()
{
    if i >= acts.len() {
        None
    } else if acts[i].kind == kind {
        Some(i)
    } else {
        find_by_kind(acts, kind, i + 1)
    }
}

/// The effective commands of the actions at the given positions, in the
/// order the positions stand.
pub open spec fn commands_of(acts: Seq<IdleActionBlock>, idxs: Seq<int>) -> Seq<Seq<char>> {
    idxs.map_values(|i: int| spec_effective_command(acts[i]))
}

/// The names of the blocks of `acts`, in declaration order.
pub open spec fn names_of(acts: Seq<IdleActionBlock>) -> Seq<Seq<char>> {
    Seq::new(acts.len(), |i: int| acts[i].name@)
}

/// Whether any action in `acts` has fired in the running idle excursion.
pub open spec fn any_triggered(acts: Seq<IdleActionBlock>) -> bool {
    exists|j: int| 0 <= j < acts.len() && (#[trigger] acts[j].last_triggered) is Some
}

/// Everything of two states is equal except possibly the action list and
/// the cursor into it.
pub open spec fn same_core(a: EngineState, b: EngineState) -> bool {
    &&& a.config == b.config
    &&& a.current_profile == b.current_profile
    &&& a.paused == b.paused
    &&& a.manually_paused == b.manually_paused
    &&& a.on_battery == b.on_battery
    &&& a.is_laptop == b.is_laptop
    &&& a.last_activity == b.last_activity
    &&& a.start_time == b.start_time
    &&& a.externally_locked == b.externally_locked
    &&& a.wake_pending == b.wake_pending
}

impl EngineState {
    /// The minimum spacing between two firings of one action, in seconds.
    pub open spec fn debounce(self) -> u64 {
        self.config.debounce_seconds as u64
    }

    /// Either pause flag alone suppresses triggering.
    pub open spec fn suppressed(self) -> bool {
        self.paused || self.manually_paused
    }

    /// Well-formedness: the cursor stays within the active list, and every
    /// action list is ordered by ascending timeout.
    pub open spec fn wf(self) -> bool {
        &&& self.action_index <= self.actions@.len()
        &&& sorted_by_timeout(self.actions@)
        &&& sorted_by_timeout(self.config.ac_actions@)
        &&& sorted_by_timeout(self.config.battery_actions@)
    }

    /// A fresh engine over a loaded configuration: no profile chosen yet, no
    /// excursion under way, nothing suppressed.
    pub fn new(config: StasisConfig, is_laptop: bool, now: u64) -> (r: EngineState)
        requires
            sorted_by_timeout(config.ac_actions@),
            sorted_by_timeout(config.battery_actions@),
        ensures
            r.wf(),
            r.config == config,
            r.current_profile is None,
            r.actions@.len() == 0,
            r.action_index == 0,
            !r.paused,
            !r.manually_paused,
            r.on_battery is None,
            r.is_laptop == is_laptop,
            r.last_activity == now,
            r.start_time == now,
            !r.externally_locked,
            !r.wake_pending,
    {
        EngineState {
            config,
            current_profile: None,
            actions: Vec::new(),
            action_index: 0,
            paused: false,
            manually_paused: false,
            on_battery: None,
            is_laptop,
            last_activity: now,
            start_time: now,
            externally_locked: false,
            wake_pending: false,
        }
    }

    /// Clears every action's trigger timestamp and rewinds the cursor, so
    /// the next idle period starts clean.
    pub fn reset_all(&mut self)
        requires
            old(self).wf(),
        ensures
            final(self).wf(),
            same_core(*final(self), *old(self)),
            final(self).action_index == 0,
            final(self).actions@.len() == old(self).actions@.len(),
            forall|i: int|
                0 <= i < old(self).actions@.len() ==> final(self).actions@[i] == with_cleared(
                    old(self).actions@[i],
                ),
    {
        let ghost acts0 = self.actions@;
        let mut i: usize = 0;
        while i < self.actions.len()
            invariant
                0 <= i <= self.actions@.len(),
                self.actions@.len() == acts0.len(),
                same_core(*self, *old(self)),
                self.action_index == old(self).action_index,
                forall|j: int| i <= j < acts0.len() ==> self.actions@[j] == acts0[j],
                forall|j: int| 0 <= j < i ==> self.actions@[j] == with_cleared(acts0[j]),
            decreases self.actions@.len() - i,
        {
            self.actions[i].last_triggered = None;
            i += 1;
        }
        self.action_index = 0;
        proof {
            lemma_sorted_pointwise_timeouts(acts0, self.actions@);
        }
    }

    /// Clears the trigger timestamp of every instant action only, so they
    /// may fire again on the next qualifying transition; timed actions'
    /// progress is untouched.
    pub fn reset_instant_actions(&mut self)
        requires
            old(self).wf(),
        ensures
            final(self).wf(),
            same_core(*final(self), *old(self)),
            final(self).action_index == old(self).action_index,
            final(self).actions@.len() == old(self).actions@.len(),
            forall|i: int|
                0 <= i < old(self).actions@.len() ==> final(self).actions@[i] == (
                if old(self).actions@[i].timeout == 0 {
                    with_cleared(old(self).actions@[i])
                } else {
                    old(self).actions@[i]
                }),
    {
        let ghost acts0 = self.actions@;
        let mut i: usize = 0;
        while i < self.actions.len()
            invariant
                0 <= i <= self.actions@.len(),
                self.actions@.len() == acts0.len(),
                same_core(*self, *old(self)),
                self.action_index == old(self).action_index,
                forall|j: int| i <= j < acts0.len() ==> self.actions@[j] == acts0[j],
                forall|j: int|
                    0 <= j < i ==> self.actions@[j] == (if acts0[j].timeout == 0 {
                        with_cleared(acts0[j])
                    } else {
                        acts0[j]
                    }),
            decreases self.actions@.len() - i,
        {
            if self.actions[i].timeout == 0 {
                self.actions[i].last_triggered = None;
            }
            i += 1;
        }
        proof {
            lemma_sorted_pointwise_timeouts(acts0, self.actions@);
        }
    }

    /// Installs the named profile: the active list becomes a copy of that
    /// profile's configured blocks with all trigger state cleared, and the
    /// cursor rewinds.
    pub fn select_profile(&mut self, profile: PowerProfile)
        requires
            old(self).wf(),
        ensures
            final(self).wf(),
            final(self).current_profile == Some(profile),
            final(self).action_index == 0,
            final(self).wake_pending,
            final(self).config == old(self).config,
            final(self).paused == old(self).paused,
            final(self).manually_paused == old(self).manually_paused,
            final(self).on_battery == old(self).on_battery,
            final(self).is_laptop == old(self).is_laptop,
            final(self).last_activity == old(self).last_activity,
            final(self).start_time == old(self).start_time,
            final(self).externally_locked == old(self).externally_locked,
            ({
                let src = if profile is Ac {
                    old(self).config.ac_actions@
                } else {
                    old(self).config.battery_actions@
                };
                final(self).actions@.len() == src.len() && forall|i: int|
                    0 <= i < src.len() ==> final(self).actions@[i] == with_cleared(src[i])
            }),
    {
        let fresh = match profile {
            PowerProfile::Ac => cleared_copy(&self.config.ac_actions),
            PowerProfile::Battery => cleared_copy(&self.config.battery_actions),
        };
        proof {
            let src = if profile is Ac {
                self.config.ac_actions@
            } else {
                self.config.battery_actions@
            };
            lemma_sorted_pointwise_timeouts(src, fresh@);
        }
        self.actions = fresh;
        self.action_index = 0;
        self.current_profile = Some(profile);
        self.wake_pending = true;
    }

    /// Swaps in a freshly loaded configuration snapshot and reinstalls the
    /// active profile from it; with no profile chosen yet, the active list
    /// becomes empty.
    pub fn update_from_config(&mut self, config: StasisConfig)
        requires
            old(self).wf(),
            sorted_by_timeout(config.ac_actions@),
            sorted_by_timeout(config.battery_actions@),
        ensures
            final(self).wf(),
            final(self).config == config,
            final(self).current_profile == old(self).current_profile,
            final(self).action_index == 0,
            final(self).wake_pending,
            final(self).paused == old(self).paused,
            final(self).manually_paused == old(self).manually_paused,
            final(self).on_battery == old(self).on_battery,
            final(self).is_laptop == old(self).is_laptop,
            final(self).last_activity == old(self).last_activity,
            final(self).start_time == old(self).start_time,
            final(self).externally_locked == old(self).externally_locked,
            ({
                match old(self).current_profile {
                    None => final(self).actions@.len() == 0,
                    Some(profile) => {
                        let src = if profile is Ac {
                            config.ac_actions@
                        } else {
                            config.battery_actions@
                        };
                        final(self).actions@.len() == src.len() && forall|i: int|
                            0 <= i < src.len() ==> final(self).actions@[i] == with_cleared(src[i])
                    },
                }
            }),
    {
        self.config = config;
        match self.current_profile {
            None => {
                self.actions = Vec::new();
                self.action_index = 0;
                self.wake_pending = true;
            },
            Some(profile) => {
                self.select_profile(profile);
            },
        }
    }

    /// Manual pause from the control surface: suppresses triggering until
    /// resumed, independent of system-detected pause conditions.
    pub fn pause(&mut self)
        requires
            old(self).wf(),
        ensures
            final(self).wf(),
            *final(self) == (EngineState {
                manually_paused: true,
                wake_pending: true,
                ..*old(self)
            }),
    {
        self.manually_paused = true;
        self.wake_pending = true;
    }

    /// Manual resume from the control surface: lifts the manual pause and
    /// counts the request itself as user activity.
    pub fn resume(&mut self, now: u64)
        requires
            old(self).wf(),
        ensures
            final(self).wf(),
            *final(self) == (EngineState {
                manually_paused: false,
                last_activity: now,
                wake_pending: true,
                ..*old(self)
            }),
    {
        self.manually_paused = false;
        self.last_activity = now;
        self.wake_pending = true;
    }

    /// Flips the manual inhibit flag.
    pub fn toggle_manual_pause(&mut self)
        requires
            old(self).wf(),
        ensures
            final(self).wf(),
            *final(self) == (EngineState {
                manually_paused: !old(self).manually_paused,
                wake_pending: true,
                ..*old(self)
            }),
    {
        self.manually_paused = !self.manually_paused;
        self.wake_pending = true;
    }

    /// The names of the active profile's actions, in declaration order.
    pub fn action_names(&self) -> (names: Vec<String>)
        ensures
            names.deep_view() == names_of(self.actions@),
    {
        let mut names: Vec<String> = Vec::new();
        let mut i: usize = 0;
        while i < self.actions.len()
            invariant
                0 <= i <= self.actions@.len(),
                names@.len() == i,
                forall|j: int| 0 <= j < i ==> #[trigger] names@[j]@ == self.actions@[j].name@,
            decreases self.actions@.len() - i,
        {
            names.push(self.actions[i].name.clone());
            i += 1;
        }
        proof {
            assert(names.deep_view() =~= names_of(self.actions@));
        }
        names
    }

    /// Whether any action of the active list has fired in the running
    /// excursion.
    pub fn any_action_triggered(&self) -> (r: bool)
        ensures
            r == any_triggered(self.actions@),
    {
        let mut i: usize = 0;
        while i < self.actions.len()
            invariant
                0 <= i <= self.actions@.len(),
                forall|j: int| 0 <= j < i ==> !((#[trigger] self.actions@[j].last_triggered) is Some),
            decreases self.actions@.len() - i,
        {
            if self.actions[i].last_triggered.is_some() {
                return true;
            }
            i += 1;
        }
        false
    }
}

impl EngineState {
    /// One evaluation pass: a no-op while suppressed; otherwise walks the
    /// active list from the cursor, fires (returns the command of) every due
    /// action that passes the debounce test, stamps each fired action with
    /// `now`, and leaves the cursor at the first not-yet-due position.
    pub fn evaluate(&mut self, now: u64, idle_secs: u64) -> (fired: Vec<String>)
        requires
            old(self).wf(),
        ensures
            final(self).wf(),
            old(self).suppressed() ==> *final(self) == *old(self) && fired@.len() == 0,
            !old(self).suppressed() ==> ({
                let acts = old(self).actions@;
                let lo = old(self).action_index as int;
                let hi = first_not_due(acts, lo, idle_secs);
                let deb = old(self).debounce();
                &&& same_core(*final(self), *old(self))
                &&& final(self).action_index == hi
                &&& final(self).actions@.len() == acts.len()
                &&& (forall|i: int|
                    (0 <= i < lo || hi <= i < acts.len()) ==> final(self).actions@[i] == acts[i])
                &&& (forall|i: int|
                    lo <= i < hi ==> final(self).actions@[i] == (if spec_debounce_ok(
                        (#[trigger] acts[i]).last_triggered,
                        now,
                        deb,
                    ) {
                        with_triggered(acts[i], now)
                    } else {
                        acts[i]
                    }))
                &&& fired.deep_view() == commands_of(acts, fired_indices(acts, lo, hi, now, deb))
            }),
    {
        let mut fired: Vec<String> = Vec::new();
        if self.paused || self.manually_paused {
            return fired;
        }
        let debounce: u64 = self.config.debounce_seconds as u64;
        let ghost acts0 = self.actions@;
        let ghost lo = self.action_index as int;
        let mut cur: usize = self.action_index;
        proof {
            assert(fired.deep_view() =~= commands_of(acts0, fired_indices(acts0, lo, lo, now, debounce)));
        }
        while cur < self.actions.len() && self.actions[cur].timeout <= idle_secs
            invariant
                old(self).wf(),
                !old(self).suppressed(),
                acts0 == old(self).actions@,
                lo == old(self).action_index as int,
                debounce == old(self).debounce(),
                lo <= cur <= acts0.len(),
                self.actions@.len() == acts0.len(),
                same_core(*self, *old(self)),
                self.action_index == old(self).action_index,
                forall|j: int|
                    (0 <= j < lo || cur <= j < acts0.len()) ==> self.actions@[j] == acts0[j],
                forall|j: int|
                    lo <= j < cur ==> self.actions@[j] == (if spec_debounce_ok(
                        (#[trigger] acts0[j]).last_triggered,
                        now,
                        debounce,
                    ) {
                        with_triggered(acts0[j], now)
                    } else {
                        acts0[j]
                    }),
                first_not_due(acts0, lo, idle_secs) == first_not_due(acts0, cur as int, idle_secs),
                fired.deep_view() == commands_of(
                    acts0,
                    fired_indices(acts0, lo, cur as int, now, debounce),
                ),
            decreases acts0.len() - cur,
        {
            let ghost fired_pre = fired.deep_view();
            let ghost idxs_pre = fired_indices(acts0, lo, cur as int, now, debounce);
            let ok = match self.actions[cur].last_triggered {
                None => true,
                Some(t) => t <= now && now - t >= debounce,
            };
            proof {
                assert(self.actions@[cur as int] == acts0[cur as int]);
                assert(ok == spec_debounce_ok(acts0[cur as int].last_triggered, now, debounce));
            }
            if ok {
                let cmd = self.actions[cur].get_lock_command().to_owned();
                fired.push(cmd);
                self.actions[cur].last_triggered = Some(now);
                proof {
                    assert(self.actions@[cur as int] == with_triggered(acts0[cur as int], now));
                    assert(fired.deep_view() =~= fired_pre + seq![
                        spec_effective_command(acts0[cur as int]),
                    ]);
                }
            }
            proof {
                lemma_fired_indices_snoc(acts0, lo, cur as int, now, debounce);
                let idxs_post = fired_indices(acts0, lo, cur as int + 1, now, debounce);
                if ok {
                    assert(idxs_post == idxs_pre + seq![cur as int]);
                    assert(commands_of(acts0, idxs_post) =~= commands_of(acts0, idxs_pre) + seq![
                        spec_effective_command(acts0[cur as int]),
                    ]);
                } else {
                    assert(idxs_post =~= idxs_pre);
                }
            }
            cur += 1;
        }
        proof {
            assert(first_not_due(acts0, cur as int, idle_secs) == cur as int);
        }
        self.action_index = cur;
        proof {
            lemma_sorted_pointwise_timeouts(acts0, self.actions@);
        }
        fired
    }
}

impl EngineState {
    /// Fires every instant action (zero timeout) of the active profile
    /// unconditionally, stamping each with `now`: used when entering states
    /// where time-based waiting is meaningless.
    pub fn trigger_instant_actions(&mut self, now: u64) -> (fired: Vec<String>)
        requires
            old(self).wf(),
        ensures
            final(self).wf(),
            same_core(*final(self), *old(self)),
            final(self).action_index == old(self).action_index,
            final(self).actions@.len() == old(self).actions@.len(),
            forall|i: int|
                0 <= i < old(self).actions@.len() ==> final(self).actions@[i] == (if (
                #[trigger] old(self).actions@[i]).timeout == 0 {
                    with_triggered(old(self).actions@[i], now)
                } else {
                    old(self).actions@[i]
                }),
            fired.deep_view() == instant_commands(old(self).actions@, 0),
    {
        let mut fired: Vec<String> = Vec::new();
        let ghost acts0 = self.actions@;
        let mut i: usize = 0;
        proof {
            assert(fired.deep_view() =~= Seq::<Seq<char>>::empty());
        }
        while i < self.actions.len()
            invariant
                old(self).wf(),
                acts0 == old(self).actions@,
                0 <= i <= acts0.len(),
                self.actions@.len() == acts0.len(),
                same_core(*self, *old(self)),
                self.action_index == old(self).action_index,
                forall|j: int| i <= j < acts0.len() ==> self.actions@[j] == acts0[j],
                forall|j: int|
                    0 <= j < i ==> self.actions@[j] == (if (#[trigger] acts0[j]).timeout == 0 {
                        with_triggered(acts0[j], now)
                    } else {
                        acts0[j]
                    }),
                instant_commands(acts0, 0) == fired.deep_view() + instant_commands(acts0, i as int),
            decreases acts0.len() - i,
        {
            let ghost fired_pre = fired.deep_view();
            if self.actions[i].timeout == 0 {
                let cmd = self.actions[i].get_lock_command().to_owned();
                fired.push(cmd);
                self.actions[i].last_triggered = Some(now);
                proof {
                    assert(fired.deep_view() =~= fired_pre + seq![
                        spec_effective_command(acts0[i as int]),
                    ]);
                    assert(fired_pre + (seq![spec_effective_command(acts0[i as int])]
                        + instant_commands(acts0, i as int + 1)) =~= (fired_pre + seq![
                        spec_effective_command(acts0[i as int]),
                    ]) + instant_commands(acts0, i as int + 1));
                }
            }
            i += 1;
        }
        proof {
            assert(instant_commands(acts0, acts0.len() as int) =~= Seq::<Seq<char>>::empty());
            assert(fired.deep_view() =~= fired.deep_view() + Seq::<Seq<char>>::empty());
            lemma_sorted_pointwise_timeouts(acts0, self.actions@);
        }
        fired
    }

    /// Fires every configured action of the active profile in declaration
    /// order, ignoring timeouts and debounce: the administrative trigger-all
    /// affordance. Every action is stamped with `now`.
    pub fn trigger_all(&mut self, now: u64) -> (fired: Vec<String>)
        requires
            old(self).wf(),
        ensures
            final(self).wf(),
            same_core(*final(self), *old(self)),
            final(self).action_index == old(self).action_index,
            final(self).actions@.len() == old(self).actions@.len(),
            forall|i: int|
                0 <= i < old(self).actions@.len() ==> final(self).actions@[i] == with_triggered(
                    old(self).actions@[i],
                    now,
                ),
            fired.deep_view() == all_commands(old(self).actions@, 0),
    {
        let mut fired: Vec<String> = Vec::new();
        let ghost acts0 = self.actions@;
        let mut i: usize = 0;
        proof {
            assert(fired.deep_view() =~= Seq::<Seq<char>>::empty());
        }
        while i < self.actions.len()
            invariant
                old(self).wf(),
                acts0 == old(self).actions@,
                0 <= i <= acts0.len(),
                self.actions@.len() == acts0.len(),
                same_core(*self, *old(self)),
                self.action_index == old(self).action_index,
                forall|j: int| i <= j < acts0.len() ==> self.actions@[j] == acts0[j],
                forall|j: int|
                    0 <= j < i ==> self.actions@[j] == with_triggered(#[trigger] acts0[j], now),
                all_commands(acts0, 0) == fired.deep_view() + all_commands(acts0, i as int),
            decreases acts0.len() - i,
        {
            let ghost fired_pre = fired.deep_view();
            let cmd = self.actions[i].get_lock_command().to_owned();
            fired.push(cmd);
            self.actions[i].last_triggered = Some(now);
            proof {
                assert(fired.deep_view() =~= fired_pre + seq![
                    spec_effective_command(acts0[i as int]),
                ]);
                assert(fired_pre + (seq![spec_effective_command(acts0[i as int])] + all_commands(
                    acts0,
                    i as int + 1,
                )) =~= (fired_pre + seq![spec_effective_command(acts0[i as int])]) + all_commands(
                    acts0,
                    i as int + 1,
                ));
            }
            i += 1;
        }
        proof {
            assert(all_commands(acts0, acts0.len() as int) =~= Seq::<Seq<char>>::empty());
            assert(fired.deep_view() =~= fired.deep_view() + Seq::<Seq<char>>::empty());
            lemma_sorted_pointwise_timeouts(acts0, self.actions@);
        }
        fired
    }

    /// Fires the named action immediately, bypassing idle duration, debounce
    /// and ordering; the cursor does not move. With no action of that name in
    /// the active profile, reports `UnknownAction` and changes nothing.
    pub fn trigger_by_name(&mut self, now: u64, name: &str) -> (r: Result<String, EngineError>)
        requires
            old(self).wf(),
        ensures
            final(self).wf(),
            ({
                let acts = old(self).actions@;
                match find_by_name(acts, name@, 0) {
                    Some(i) => {
                        &&& r is Ok
                        &&& r->Ok_0@ == spec_effective_command(acts[i])
                        &&& same_core(*final(self), *old(self))
                        &&& final(self).action_index == old(self).action_index
                        &&& final(self).actions@ == acts.update(i, with_triggered(acts[i], now))
                    },
                    None => r == Result::<String, EngineError>::Err(EngineError::UnknownAction)
                        && *final(self) == *old(self),
                }
            }),
    {
        let ghost acts0 = self.actions@;
        let mut i: usize = 0;
        while i < self.actions.len()
            invariant
                old(self).wf(),
                acts0 == old(self).actions@,
                0 <= i <= acts0.len(),
                *self == *old(self),
                find_by_name(acts0, name@, 0) == find_by_name(acts0, name@, i as int),
            decreases acts0.len() - i,
        {
            if str_eq(self.actions[i].name.as_str(), name) {
                let cmd = self.actions[i].get_lock_command().to_owned();
                self.actions[i].last_triggered = Some(now);
                proof {
                    assert(find_by_name(acts0, name@, i as int) == Some(i as int));
                    assert(self.actions@ =~= acts0.update(
                        i as int,
                        with_triggered(acts0[i as int], now),
                    ));
                    lemma_sorted_pointwise_timeouts(acts0, self.actions@);
                }
                return Ok(cmd);
            }
            i += 1;
        }
        Err(EngineError::UnknownAction)
    }

    /// Fires the first action of the given kind immediately, bypassing idle
    /// duration and ordering but honouring the debounce spacing; the cursor
    /// does not move. Used by the lid policies, which invoke the lock or
    /// suspend action directly and must absorb flapping lid signals.
    /// Returns `None`, changing nothing, when the active profile has no
    /// action of that kind, or when the found action fired less than the
    /// debounce spacing before `now`.
    pub fn trigger_first_of_kind(&mut self, kind: IdleAction, now: u64) -> (r: Option<String>)
        requires
            old(self).wf(),
        ensures
            final(self).wf(),
            ({
                let acts = old(self).actions@;
                match find_by_kind(acts, kind, 0) {
                    Some(i) => if spec_debounce_ok(
                        acts[i].last_triggered,
                        now,
                        old(self).debounce(),
                    ) {
                        &&& r is Some
                        &&& r->0@ == spec_effective_command(acts[i])
                        &&& same_core(*final(self), *old(self))
                        &&& final(self).action_index == old(self).action_index
                        &&& final(self).actions@ == acts.update(i, with_triggered(acts[i], now))
                    } else {
                        r is None && *final(self) == *old(self)
                    },
                    None => r is None && *final(self) == *old(self),
                }
            }),
    {
        let debounce: u64 = self.config.debounce_seconds as u64;
        let ghost acts0 = self.actions@;
        let mut i: usize = 0;
        while i < self.actions.len()
            invariant
                old(self).wf(),
                acts0 == old(self).actions@,
                0 <= i <= acts0.len(),
                *self == *old(self),
                debounce == old(self).debounce(),
                find_by_kind(acts0, kind, 0) == find_by_kind(acts0, kind, i as int),
            decreases acts0.len() - i,
        {
            if self.actions[i].kind == kind {
                proof {
                    assert(find_by_kind(acts0, kind, i as int) == Some(i as int));
                }
                let ok = match self.actions[i].last_triggered {
                    None => true,
                    Some(t) => t <= now && now - t >= debounce,
                };
                if !ok {
                    return None;
                }
                let cmd = self.actions[i].get_lock_command().to_owned();
                self.actions[i].last_triggered = Some(now);
                proof {
                    assert(self.actions@ =~= acts0.update(
                        i as int,
                        with_triggered(acts0[i as int], now),
                    ));
                    lemma_sorted_pointwise_timeouts(acts0, self.actions@);
                }
                return Some(cmd);
            }
            i += 1;
        }
        None
    }

    /// The user is active again: executes the resume command of every action
    /// that fired, most recently fired first, then clears all trigger state
    /// and rewinds the cursor. Only actions whose trigger timestamp was set
    /// contribute a command, and only if they define a resume command.
    pub fn on_resume(&mut self, now: u64) -> (fired: Vec<String>)
        requires
            old(self).wf(),
        ensures
            final(self).wf(),
            same_core(*final(self), *old(self)),
            final(self).action_index == 0,
            final(self).actions@.len() == old(self).actions@.len(),
            forall|i: int|
                0 <= i < old(self).actions@.len() ==> final(self).actions@[i] == with_cleared(
                    old(self).actions@[i],
                ),
            fired.deep_view() == resume_commands_rev(
                old(self).actions@,
                old(self).actions@.len() as int,
            ),
    {
        let mut fired: Vec<String> = Vec::new();
        let ghost acts0 = self.actions@;
        let mut cur: usize = self.actions.len();
        proof {
            assert(fired.deep_view() =~= Seq::<Seq<char>>::empty());
        }
        while cur > 0
            invariant
                old(self).wf(),
                acts0 == old(self).actions@,
                0 <= cur <= acts0.len(),
                *self == *old(self),
                resume_commands_rev(acts0, acts0.len() as int) == fired.deep_view()
                    + resume_commands_rev(acts0, cur as int),
            decreases cur,
        {
            let ghost fired_pre = fired.deep_view();
            let i = cur - 1;
            if self.actions[i].last_triggered.is_some() {
                match &self.actions[i].resume_command {
                    Some(rc) => {
                        let cmd = rc.clone();
                        fired.push(cmd);
                        proof {
                            assert(fired.deep_view() =~= fired_pre + seq![
                                acts0[i as int].resume_command->0@,
                            ]);
                            assert(fired_pre + (seq![acts0[i as int].resume_command->0@]
                                + resume_commands_rev(acts0, i as int)) =~= (fired_pre + seq![
                                acts0[i as int].resume_command->0@,
                            ]) + resume_commands_rev(acts0, i as int));
                        }
                    },
                    None => {
                        proof {
                            assert(fired_pre + Seq::<Seq<char>>::empty() =~= fired_pre);
                        }
                    },
                }
            } else {
                proof {
                    assert(fired_pre + Seq::<Seq<char>>::empty() =~= fired_pre);
                }
            }
            cur = i;
        }
        proof {
            assert(resume_commands_rev(acts0, 0) =~= Seq::<Seq<char>>::empty());
            assert(fired.deep_view() =~= fired.deep_view() + Seq::<Seq<char>>::empty());
        }
        self.reset_all();
        fired
    }
}

proof fn lemma_fired_indices_snoc(
    acts: Seq<IdleActionBlock>,
    lo: int,
    hi: int,
    now: u64,
    debounce: u64,
)
    requires
        lo <= hi,
    ensures
        fired_indices(acts, lo, hi + 1, now, debounce) == fired_indices(acts, lo, hi, now, debounce)
            + (if spec_debounce_ok(acts[hi].last_triggered, now, debounce) {
            seq![hi]
        } else {
            Seq::<int>::empty()
        }),
    decreases hi - lo,
{
    let ghost tail = if spec_debounce_ok(acts[hi].last_triggered, now, debounce) {
        seq![hi]
    } else {
        Seq::<int>::empty()
    };
    if lo >= hi {
        assert(fired_indices(acts, lo + 1, hi + 1, now, debounce) == Seq::<int>::empty());
        if spec_debounce_ok(acts[hi].last_triggered, now, debounce) {
            assert(fired_indices(acts, lo, hi + 1, now, debounce) =~= fired_indices(
                acts,
                lo,
                hi,
                now,
                debounce,
            ) + tail);
        } else {
            assert(fired_indices(acts, lo, hi + 1, now, debounce) =~= fired_indices(
                acts,
                lo,
                hi,
                now,
                debounce,
            ) + tail);
        }
    } else {
        lemma_fired_indices_snoc(acts, lo + 1, hi, now, debounce);
        if spec_debounce_ok(acts[lo].last_triggered, now, debounce) {
            assert(seq![lo] + (fired_indices(acts, lo + 1, hi, now, debounce) + tail) =~= (seq![lo]
                + fired_indices(acts, lo + 1, hi, now, debounce)) + tail);
        }
    }
}

/// Debounce, both directions: one evaluation pass over the cursor range
/// `[lo, hi)` fires the action at position `i` exactly when that position
/// lies in the range and the action last fired at least `debounce` seconds
/// before `now` (or never fired). So a second firing within the debounce
/// window never occurs, and a firing after the window has elapsed is never
/// withheld.
pub proof fn lemma_fired_iff_debounce(
    acts: Seq<IdleActionBlock>,
    lo: int,
    hi: int,
    now: u64,
    debounce: u64,
    i: int,
)
    requires
        lo <= hi,
    ensures
        fired_indices(acts, lo, hi, now, debounce).contains(i) <==> (lo <= i < hi
            && spec_debounce_ok(acts[i].last_triggered, now, debounce)),
    decreases hi - lo,
{
    let fi = fired_indices(acts, lo, hi, now, debounce);
    if lo >= hi {
        assert(!fi.contains(i));
    } else {
        lemma_fired_iff_debounce(acts, lo + 1, hi, now, debounce, i);
        let rest = fired_indices(acts, lo + 1, hi, now, debounce);
        if spec_debounce_ok(acts[lo].last_triggered, now, debounce) {
            assert(fi == seq![lo] + rest);
            if lo <= i < hi && spec_debounce_ok(acts[i].last_triggered, now, debounce) {
                if i == lo {
                    assert(fi[0] == i);
                    assert(fi.contains(i));
                } else {
                    let k = choose|k: int| 0 <= k < rest.len() && rest[k] == i;
                    assert(fi[k + 1] == i);
                    assert(fi.contains(i));
                }
            }
            if fi.contains(i) {
                let k = choose|k: int| 0 <= k < fi.len() && fi[k] == i;
                if k == 0 {
                    assert(i == lo);
                } else {
                    assert(rest[k - 1] == i);
                    assert(rest.contains(i));
                }
            }
        } else {
            assert(fi == rest);
            assert(!(spec_debounce_ok(acts[lo].last_triggered, now, debounce)) ==> i != lo
                || !spec_debounce_ok(acts[i].last_triggered, now, debounce));
        }
    }
}

/// Stability: the positions one evaluation pass fires come out in strictly
/// ascending order, so actions fire in declaration order; in particular a
/// run of equal-timeout actions fires exactly in the order it was declared.
pub proof fn lemma_fired_indices_increasing(
    acts: Seq<IdleActionBlock>,
    lo: int,
    hi: int,
    now: u64,
    debounce: u64,
    k1: int,
    k2: int,
)
    requires
        lo <= hi,
        0 <= k1 < k2 < fired_indices(acts, lo, hi, now, debounce).len(),
    ensures
        fired_indices(acts, lo, hi, now, debounce)[k1] < fired_indices(
            acts,
            lo,
            hi,
            now,
            debounce,
        )[k2],
    decreases hi - lo,
{
    let fi = fired_indices(acts, lo, hi, now, debounce);
    let rest = fired_indices(acts, lo + 1, hi, now, debounce);
    if lo >= hi {
        // empty: nothing to show
    } else if spec_debounce_ok(acts[lo].last_triggered, now, debounce) {
        if k1 == 0 {
            assert(fi[k2] == rest[k2 - 1]);
            assert(rest.contains(rest[k2 - 1]));
            lemma_fired_iff_debounce(acts, lo + 1, hi, now, debounce, rest[k2 - 1]);
            assert(fi[k1] == lo < rest[k2 - 1]);
        } else {
            lemma_fired_indices_increasing(acts, lo + 1, hi, now, debounce, k1 - 1, k2 - 1);
            assert(fi[k1] == rest[k1 - 1] && fi[k2] == rest[k2 - 1]);
        }
    } else {
        lemma_fired_indices_increasing(acts, lo + 1, hi, now, debounce, k1, k2);
    }
}

/// Every position below the first not-yet-due one holds a due action: the
/// walk stops exactly at the first action whose timeout exceeds the idle
/// duration.
pub proof fn lemma_first_not_due_props(acts: Seq<IdleActionBlock>, start: int, idle: u64)
    requires
        0 <= start <= acts.len(),
    ensures
        start <= first_not_due(acts, start, idle) <= acts.len(),
        forall|j: int|
            start <= j < first_not_due(acts, start, idle) ==> (#[trigger] acts[j]).timeout <= idle,
        first_not_due(acts, start, idle) < acts.len() ==> acts[first_not_due(
            acts,
            start,
            idle,
        )].timeout > idle,
    decreases acts.len() - start,
{
    if start < acts.len() && acts[start].timeout <= idle {
        lemma_first_not_due_props(acts, start + 1, idle);
    }
}

/// One evaluation pass fires only due actions: each fired position lies in
/// the walked range, its action's timeout is at most the idle duration, and
/// it passed the debounce test.
pub proof fn lemma_evaluate_fires_only_due(
    acts: Seq<IdleActionBlock>,
    start: int,
    idle: u64,
    now: u64,
    debounce: u64,
    k: int,
)
    requires
        0 <= start <= acts.len(),
        0 <= k < fired_indices(
            acts,
            start,
            first_not_due(acts, start, idle),
            now,
            debounce,
        ).len(),
    ensures
        ({
            let hi = first_not_due(acts, start, idle);
            let i = fired_indices(acts, start, hi, now, debounce)[k];
            &&& start <= i < hi
            &&& acts[i].timeout <= idle
            &&& spec_debounce_ok(acts[i].last_triggered, now, debounce)
        }),
{
    lemma_first_not_due_props(acts, start, idle);
    let hi = first_not_due(acts, start, idle);
    let fi = fired_indices(acts, start, hi, now, debounce);
    assert(fi.contains(fi[k]));
    lemma_fired_iff_debounce(acts, start, hi, now, debounce, fi[k]);
}

/// Which instant commands a list yields depends only on each block's timeout
/// and effective command, not on its trigger state: two pointwise-agreeing
/// lists yield the same instant commands.
pub proof fn lemma_instant_commands_agree(a: Seq<IdleActionBlock>, b: Seq<IdleActionBlock>, i: int)
    requires
        a.len() == b.len(),
        0 <= i <= a.len(),
        forall|j: int|
            0 <= j < a.len() ==> (#[trigger] b[j]).timeout == a[j].timeout
                && spec_effective_command(b[j]) == spec_effective_command(a[j]),
    ensures
        instant_commands(b, i) == instant_commands(a, i),
    decreases a.len() - i,
{
    if i < a.len() {
        lemma_instant_commands_agree(a, b, i + 1);
    }
}

/// A copy of one profile's configured blocks with every trigger timestamp
/// cleared: what a profile switch installs as the active list.
fn cleared_copy(src: &Vec<IdleActionBlock>) -> (r: Vec<IdleActionBlock>)
    ensures
        r@.len() == src@.len(),
        forall|i: int| 0 <= i < src@.len() ==> r@[i] == with_cleared(src@[i]),
{
    let mut r: Vec<IdleActionBlock> = Vec::new();
    let mut i: usize = 0;
    while i < src.len()
        invariant
            0 <= i <= src@.len(),
            r@.len() == i,
            forall|j: int| 0 <= j < i ==> r@[j] == with_cleared(src@[j]),
        decreases src@.len() - i,
    {
        let b = &src[i];
        let resume_command = match &b.resume_command {
            Some(s) => Some(s.clone()),
            None => None,
        };
        let lock_command = match &b.lock_command {
            Some(s) => Some(s.clone()),
            None => None,
        };
        r.push(IdleActionBlock {
            name: b.name.clone(),
            timeout: b.timeout,
            command: b.command.clone(),
            kind: b.kind,
            resume_command,
            lock_command,
            last_triggered: None,
        });
        i += 1;
    }
    r
}

} // verus!
