//! Properties of the reconciliation engine that span more than one event.
use vstd::prelude::*;
use crate::intensity::Intensity;
use crate::engine::{Command, Message, Window};
use crate::schedule::is_night;

verus! {

/// Once the schedule's wish is recorded and already in effect, a schedule
/// check issues nothing and changes nothing.
pub proof fn lemma_no_flap(s: Window, hour: int)
    requires
        s.auto,
        s.last_auto_toggle == Some(is_night(hour)),
        s.enabled == is_night(hour),
    ensures
        s.step(Message::CheckSchedule, hour) == (s, Seq::<Command>::empty()),
{
}

/// When a sync in automatic mode sees the filter turned off by someone else
/// during the night, the schedule's wish counts as discharged: a later schedule
/// check in the same night leaves the override alone.
pub proof fn lemma_override_respected(s: Window, code: u8, hour: int, later: int)
    requires
        s.auto,
        s.enabled,
        is_night(hour),
        is_night(later),
    ensures
        s.step(Message::UpdateState(false, code), hour).0.last_auto_toggle == Some(true),
        ({
            let t = s.step(Message::UpdateState(false, code), hour).0;
            t.step(Message::CheckSchedule, later) == (t, Seq::<Command>::empty())
        }),
{
}

/// Turning automatic mode on forgets the recorded decision and checks the
/// schedule at once, whatever was remembered before.
pub proof fn lemma_auto_rearm(s: Window, hour: int)
    ensures
        s.step(Message::ToggleAuto(true), hour) == (Window {
            auto: true,
            last_auto_toggle: None,
            ..s
        }).step(Message::CheckSchedule, hour),
        s.step(Message::ToggleAuto(true), hour).1.len() == 1
            <==> s.enabled != is_night(hour),
{
}

/// Picking a new level while the filter is off turns it on too, and issues
/// the level write followed by the enable write.
pub proof fn lemma_level_enables(s: Window, lv: Intensity, hour: int)
    requires
        !s.enabled,
        s.level != lv,
    ensures
        s.step(Message::SetLevel(lv), hour).0.level == lv,
        s.step(Message::SetLevel(lv), hour).0.enabled,
        s.step(Message::SetLevel(lv), hour).1 == seq![
            Command::SetLevel(lv),
            Command::SetEnabled(true),
        ],
{
}

/// Asking for the enabled value that the mirror already holds does nothing.
pub proof fn lemma_toggle_idempotent(s: Window, v: bool, hour: int)
    requires
        s.enabled == v,
    ensures
        s.step(Message::ToggleEnabled(v), hour) == (s, Seq::<Command>::empty()),
{
}

} // verus!
