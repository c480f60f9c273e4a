//! The toggle pathway: flip, persist, give feedback.
//!
//! A toggle runs in two steps around the one effect that can fail, the write
//! to the flag file. `begin_toggle` decides the new value and what has to
//! happen on disk; the shell carries that out; `finish_toggle` takes the
//! file system's answer and decides whether the toggle stands and which
//! feedback follows. No lock has to be held while the file is written.

use vstd::prelude::*;
use vstd::string::*;
use crate::flag::{
    effective,
    effective_value,
    lemma_persisted_reads_back,
    persist_plan,
    persist_result,
    persist_verdict,
    persisted,
    plan_of,
    FlagFile,
    PersistPlan,
    PlanModel,
    OFF,
    ON,
};
use crate::indicator::{
    icon_of_mode,
    mode_icon,
    mode_notification,
    note_model,
    notification_of,
    IconName,
    Notification,
    NotificationModel,
};
use crate::input::{action_of, Action, InputModel};
use crate::mode::{flipped, ModeId, ModeState};

verus! {

/// The event by which a maintenance toggle is announced to the windows.
pub const MAINTENANCE_EVENT: &'static str = "maintenance-toggled";

/// An application-level event for every window that is open at the time.
#[derive(Clone, Debug, PartialEq, Eq)]
pub struct Broadcast {
    pub event: String,
    pub payload: String,
}

/// A broadcast as a plain value.
pub struct BroadcastModel {
    pub event: Seq<char>,
    pub payload: Seq<char>,
}

impl View for Broadcast {
    type V = BroadcastModel;

    open spec fn view(&self) -> BroadcastModel {
        BroadcastModel { event: self.event@, payload: self.payload@ }
    }
}

/// A toggle whose new value is decided and whose persistence is under way.
#[derive(Clone, Debug, PartialEq, Eq)]
pub struct PendingToggle {
    pub mode: ModeId,
    pub value: bool,
    pub plan: PersistPlan,
}

/// A pending toggle as a plain value.
pub struct PendingModel {
    pub mode: ModeId,
    pub value: bool,
    pub plan: PlanModel,
}

impl View for PendingToggle {
    type V = PendingModel;

    open spec fn view(&self) -> PendingModel {
        PendingModel { mode: self.mode, value: self.value, plan: self.plan@ }
    }
}

/// What the shell has to show and send after a toggle that stands.
#[derive(Clone, Debug, PartialEq, Eq)]
pub struct Feedback {
    /// The tray icon to swap in, if the mode has one.
    pub icon: Option<IconName>,
    /// The notification to raise, if the mode raises one.
    pub notification: Option<Notification>,
    /// The event to send to all open windows, if the mode sends one.
    pub broadcast: Option<Broadcast>,
}

/// Feedback as a plain value.
pub struct FeedbackModel {
    pub icon: Option<IconName>,
    pub notification: Option<NotificationModel>,
    pub broadcast: Option<BroadcastModel>,
}

impl View for Feedback {
    type V = FeedbackModel;

    open spec fn view(&self) -> FeedbackModel {
        FeedbackModel {
            icon: self.icon,
            notification: note_model(self.notification),
            broadcast: match self.broadcast {
                Some(b) => Some(b@),
                None => None,
            },
        }
    }
}

/// Whether a mode's toggle starts from what its flag file holds. Silence
/// flips the value held in memory; maintenance inverts what is on disk.
pub open spec fn reads_flag_of(mode: ModeId) -> bool {
    mode is Maintenance
}

/// The value that a toggle aims for.
pub open spec fn toggle_target(mode: ModeId, current: bool, file: Option<Seq<char>>) -> bool {
    match mode {
        ModeId::Silence => !current,
        ModeId::Maintenance => !effective(ModeId::Maintenance, file),
    }
}

/// The value in memory once the toggle has begun. The flip of silence cannot
/// fail and takes effect at once; maintenance waits for its write.
pub open spec fn value_while_pending(mode: ModeId, current: bool, target: bool) -> bool {
    match mode {
        ModeId::Silence => target,
        ModeId::Maintenance => current,
    }
}

/// The value in memory once the pending toggle stands. Maintenance takes the
/// new value over; silence has held it since the toggle began.
pub open spec fn value_once_standing(mode: ModeId, held: bool, target: bool) -> bool {
    match mode {
        ModeId::Silence => held,
        ModeId::Maintenance => target,
    }
}

/// The broadcast that goes with a mode's value, if the mode sends one.
pub open spec fn broadcast_of(mode: ModeId, value: bool) -> Option<BroadcastModel> {
    match mode {
        ModeId::Silence => None,
        ModeId::Maintenance => Some(
            BroadcastModel {
                event: MAINTENANCE_EVENT@,
                payload: if value {
                    ON@
                } else {
                    OFF@
                },
            },
        ),
    }
}

/// The feedback of a toggle that stands.
pub open spec fn feedback_of(mode: ModeId, value: bool) -> FeedbackModel {
    FeedbackModel {
        icon: icon_of_mode(mode, value),
        notification: notification_of(mode, value),
        broadcast: broadcast_of(mode, value),
    }
}

/// Whether the shell has to read the mode's flag file before it begins a
/// toggle.
pub fn reads_flag(mode: ModeId) -> (reads: bool)
    ensures
        reads == reads_flag_of(mode),
{
    match mode {
        ModeId::Silence => false,
        ModeId::Maintenance => true,
    }
}

/// Begins a toggle of `mode`.
///
/// `observed` is the mode's flag file as the shell found it; it is looked at
/// only for a mode that `reads_flag`. The result names the new value and the
/// operation that persists it.
pub fn begin_toggle(mode: ModeId, state: &mut ModeState, observed: &FlagFile) -> (pending:
    PendingToggle)
    ensures
        pending@.mode == mode,
        pending@.value == toggle_target(mode, old(state)@, observed@),
        pending@.plan == plan_of(mode, pending@.value),
        final(state)@ == value_while_pending(mode, old(state)@, pending@.value),
{
    let value = match mode {
        ModeId::Silence => state.toggle(),
        ModeId::Maintenance => !effective_value(ModeId::Maintenance, observed),
    };
    PendingToggle { mode, value, plan: persist_plan(mode, value) }
}

/// Ends a toggle, given what the file system answered to the planned
/// operation.
///
/// If the operation counts as done, the toggle stands: maintenance takes the
/// new value over into memory, and the feedback of the mode is returned. If
/// it failed, its cause is returned and nothing is shown or sent. Maintenance
/// then keeps its old value; silence keeps the flipped one.
pub fn finish_toggle(pending: &PendingToggle, state: &mut ModeState, answer: Result<
    (),
    String,
>) -> (outcome: Result<Feedback, String>)
    ensures
        match persist_verdict(pending.plan.op, answer) {
            Ok(_) => {
                &&& outcome matches Ok(feedback)
                &&& feedback@ == feedback_of(pending.mode, pending.value)
                &&& final(state)@ == value_once_standing(pending.mode, old(state)@, pending.value)
            },
            Err(cause) => {
                &&& outcome == Err::<Feedback, String>(cause)
                &&& final(state)@ == old(state)@
            },
        },
{
    match persist_result(&pending.plan.op, answer) {
        Err(cause) => Err(cause),
        Ok(_) => {
            let broadcast = match pending.mode {
                ModeId::Silence => None,
                ModeId::Maintenance => {
                    state.set(pending.value);
                    let payload = if pending.value { ON } else { OFF };
                    Some(
                        Broadcast {
                            event: MAINTENANCE_EVENT.to_owned(),
                            payload: payload.to_owned(),
                        },
                    )
                },
            };
            Ok(
                Feedback {
                    icon: mode_icon(pending.mode, pending.value),
                    notification: mode_notification(pending.mode, pending.value),
                    broadcast,
                },
            )
        },
    }
}

/// How often `events` ask for a toggle of `mode`.
pub open spec fn toggles_of(mode: ModeId, events: Seq<InputModel>) -> nat
    decreases events.len(),
{
    if events.len() == 0 {
        0
    } else {
        let earlier = toggles_of(mode, events.drop_last());
        if action_of(events.last()) == Action::Toggle(mode) {
            earlier + 1
        } else {
            earlier
        }
    }
}

/// The value of `mode` after `events`, when it was `start` before them, every
/// toggle stood, and the flag file recorded the value between the toggles.
pub open spec fn value_after(mode: ModeId, start: bool, events: Seq<InputModel>) -> bool
    decreases events.len(),
{
    if events.len() == 0 {
        start
    } else {
        let before = value_after(mode, start, events.drop_last());
        if action_of(events.last()) == Action::Toggle(mode) {
            toggle_target(mode, before, persisted(mode, before))
        } else {
            before
        }
    }
}

/// A toggle inverts the mode: if the flag file records the value held in
/// memory, the toggle aims for the opposite value, and the file that the plan
/// leaves behind records that opposite value.
pub proof fn lemma_toggle_inverts(mode: ModeId, current: bool, file: Option<Seq<char>>)
    requires
        effective(mode, file) == current,
    ensures
        toggle_target(mode, current, file) == !current,
        effective(mode, plan_of(mode, toggle_target(mode, current, file)).leaves) == !current,
{
    lemma_persisted_reads_back(mode, !current);
}

/// Once a toggle stands, memory and disk agree: the value in memory is the
/// value that the toggle aimed for, and the flag file that the plan leaves
/// behind stands for that same value.
pub proof fn lemma_standing_toggle_agrees_with_flag(
    mode: ModeId,
    current: bool,
    file: Option<Seq<char>>,
)
    ensures
        ({
            let target = toggle_target(mode, current, file);
            let held = value_while_pending(mode, current, target);
            let after = value_once_standing(mode, held, target);
            &&& after == target
            &&& effective(mode, plan_of(mode, target).leaves) == after
        }),
{
    lemma_persisted_reads_back(mode, toggle_target(mode, current, file));
}

/// After any sequence of inputs, from whichever surface each of them came,
/// a mode's value is its starting value flipped once per toggle: it differs
/// from the start exactly if the number of toggles is odd.
pub proof fn lemma_value_is_toggle_parity(mode: ModeId, start: bool, events: Seq<InputModel>)
    ensures
        value_after(mode, start, events) == flipped(start, toggles_of(mode, events)),
        value_after(mode, start, events) == (start != (toggles_of(mode, events) % 2 == 1)),
    decreases events.len(),
{
    if events.len() > 0 {
        let earlier = events.drop_last();
        lemma_value_is_toggle_parity(mode, start, earlier);
        let before = value_after(mode, start, earlier);
        lemma_persisted_reads_back(mode, before);
    }
}

/// Only the actions count, not the surfaces: two sequences of inputs that ask
/// for the same actions, one by one, lead to the same value.
pub proof fn lemma_surface_is_irrelevant(
    mode: ModeId,
    start: bool,
    first: Seq<InputModel>,
    second: Seq<InputModel>,
)
    requires
        first.len() == second.len(),
        forall|i: int| 0 <= i < first.len() ==> action_of(first[i]) == action_of(second[i]),
    ensures
        toggles_of(mode, first) == toggles_of(mode, second),
        value_after(mode, start, first) == value_after(mode, start, second),
    decreases first.len(),
{
    if first.len() > 0 {
        lemma_surface_is_irrelevant(mode, start, first.drop_last(), second.drop_last());
    }
}

/// A maintenance toggle that finds no readable flag file aims for *on*.
pub proof fn lemma_first_maintenance_toggle_turns_on(current: bool)
    ensures
        toggle_target(ModeId::Maintenance, current, None) == true,
        plan_of(ModeId::Maintenance, true).leaves == Some(ON@),
        broadcast_of(ModeId::Maintenance, true) == Some(
            BroadcastModel { event: MAINTENANCE_EVENT@, payload: ON@ },
        ),
{
}

} // verus!
