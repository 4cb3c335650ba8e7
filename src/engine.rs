use vstd::prelude::*;
use crate::intensity::{Intensity, level_of};
use crate::schedule::{desired_state, is_night, local_hour};

verus! {

/// An event handed to the reconciliation engine.
#[derive(Clone, Copy, Debug, PartialEq, Eq, Structural)]
pub enum Message {
    /// The user turns the filter on or off.
    ToggleEnabled(bool),
    /// The user picks a level.
    SetLevel(Intensity),
    /// The user turns automatic mode on or off.
    ToggleAuto(bool),
    /// The schedule timer fired.
    CheckSchedule,
    /// The sync timer fired.
    CheckState,
    /// A read of the service came back: the enabled flag and the level code.
    UpdateState(bool, u8),
    /// Nothing to do.
    NoOp,
}

impl Message {
    /// The event that reports a read of the service. A read that failed
    /// counts as the default: off for the flag, `Warm`'s code for the level.
    pub fn from_reads(enabled: Option<bool>, level: Option<u8>) -> (r: Message)
        ensures
            r == Message::UpdateState(
                match enabled { Some(e) => e, None => false },
                match level { Some(c) => c, None => 2 },
            ),
    {
        let e = match enabled {
            Some(e) => e,
            None => false,
        };
        let c = match level {
            Some(c) => c,
            None => Intensity::Warm.code(),
        };
        Message::UpdateState(e, c)
    }
}

/// A remote call or read that the engine asks its host to perform. Each one
/// is fire-and-forget: its outcome comes back, if at all, as a later
/// `Message::UpdateState`.
#[derive(Clone, Copy, Debug, PartialEq, Eq, Structural)]
pub enum Command {
    /// Write the enabled flag on the service.
    SetEnabled(bool),
    /// Write the level on the service.
    SetLevel(Intensity),
    /// Read both fields from the service and report them as `UpdateState`.
    FetchState,
}

/// The client's side of the night light: its mirror of the service's state,
/// whether automatic mode is on, and the last decision the schedule is taken
/// to have made.
#[derive(Clone, Copy, Debug, PartialEq, Eq, Structural)]
pub struct Window {
    pub enabled: bool,
    pub level: Intensity,
    pub auto: bool,
    pub last_auto_toggle: Option<bool>,
}

impl Window {
    /// The state before the first sync: off, `Warm`, manual mode, no decision.
    pub open spec fn initial() -> Window {
        Window { enabled: false, level: Intensity::Warm, auto: false, last_auto_toggle: None }
    }

    /// A schedule check at `hour`: in automatic mode, acts only when the
    /// schedule's wish is not the decision already recorded and differs from
    /// the live state.
    pub open spec fn schedule_step(self, hour: int) -> (Window, Seq<Command>) {
        let want = is_night(hour);
        if self.auto && self.last_auto_toggle != Some(want) && self.enabled != want {
            (Window { enabled: want, last_auto_toggle: Some(want), ..self }, seq![Command::SetEnabled(want)])
        } else {
            (self, seq![])
        }
    }

    /// A read of the service adopted at `hour`. In automatic mode a change made
    /// elsewhere discharges the schedule's current wish, whether the change
    /// goes against it or agrees with it. A level code outside 1 to 3 is not
    /// adopted.
    pub open spec fn sync_step(self, enabled: bool, code: u8, hour: int) -> Window {
        Window {
            enabled,
            level: match level_of(code) {
                Some(lv) => lv,
                None => self.level,
            },
            last_auto_toggle: if self.auto && self.enabled != enabled {
                Some(is_night(hour))
            } else {
                self.last_auto_toggle
            },
            ..self
        }
    }

    /// The new state and the commands issued when `msg` arrives at local
    /// hour `hour`.
    pub open spec fn step(self, msg: Message, hour: int) -> (Window, Seq<Command>) {
        match msg {
            Message::ToggleEnabled(v) => if v == self.enabled {
                (self, seq![])
            } else {
                (
                    Window {
                        enabled: v,
                        last_auto_toggle: if self.auto { Some(v) } else { self.last_auto_toggle },
                        ..self
                    },
                    seq![Command::SetEnabled(v)],
                )
            },
            Message::SetLevel(lv) => if lv == self.level {
                (self, seq![])
            } else if self.enabled {
                (Window { level: lv, ..self }, seq![Command::SetLevel(lv)])
            } else {
                (
                    Window { level: lv, enabled: true, ..self },
                    seq![Command::SetLevel(lv), Command::SetEnabled(true)],
                )
            },
            Message::ToggleAuto(v) => if v {
                Window { auto: true, last_auto_toggle: None, ..self }.schedule_step(hour)
            } else {
                (Window { auto: false, ..self }, seq![])
            },
            Message::CheckSchedule => self.schedule_step(hour),
            Message::CheckState => (self, seq![Command::FetchState]),
            Message::UpdateState(enabled, code) => (self.sync_step(enabled, code, hour), seq![]),
            Message::NoOp => (self, seq![]),
        }
    }

    fn check_schedule(&mut self, hour: u32) -> (r: Vec<Command>)
        ensures
            (*final(self), r@) == old(self).schedule_step(hour as int),
    {
        let want = desired_state(hour);
        if self.auto && self.last_auto_toggle != Some(want) && self.enabled != want {
            self.enabled = want;
            self.last_auto_toggle = Some(want);
            vec![Command::SetEnabled(want)]
        } else {
            Vec::new()
        }
    }

    /// Handles one event at the given local hour and returns the commands to
    /// perform, in order.
    pub fn update_at(&mut self, msg: Message, hour: u32) -> (r: Vec<Command>)
        ensures
            (*final(self), r@) == old(self).step(msg, hour as int),
    {
        match msg {
            Message::ToggleEnabled(v) => {
                if self.enabled != v {
                    self.enabled = v;
                    // The manual choice stands for the schedule's decision in
                    // this window, so the next check does not flip it back.
                    if self.auto {
                        self.last_auto_toggle = Some(v);
                    }
                    vec![Command::SetEnabled(v)]
                } else {
                    Vec::new()
                }
            },
            Message::SetLevel(lv) => {
                if self.level != lv {
                    self.level = lv;
                    if !self.enabled {
                        // Choosing a level turns the filter on.
                        self.enabled = true;
                        vec![Command::SetLevel(lv), Command::SetEnabled(true)]
                    } else {
                        vec![Command::SetLevel(lv)]
                    }
                } else {
                    Vec::new()
                }
            },
            Message::ToggleAuto(v) => {
                self.auto = v;
                if v {
                    self.last_auto_toggle = None;
                    self.check_schedule(hour)
                } else {
                    Vec::new()
                }
            },
            Message::CheckSchedule => self.check_schedule(hour),
            Message::CheckState => vec![Command::FetchState],
            Message::UpdateState(enabled, code) => {
                if self.auto && self.enabled != enabled {
                    let sched = desired_state(hour);
                    if enabled != sched {
                        // Overridden against the schedule: treat its wish as
                        // already carried out.
                        self.last_auto_toggle = Some(sched);
                    } else {
                        self.last_auto_toggle = Some(enabled);
                    }
                }
                self.enabled = enabled;
                if let Some(lv) = Intensity::from_code(code) {
                    self.level = lv;
                }
                Vec::new()
            },
            Message::NoOp => Vec::new(),
        }
    }

    /// Handles one event at the current local hour and returns the commands
    /// to perform, in order.
    pub fn update(&mut self, msg: Message) -> (r: Vec<Command>)
        ensures
            exists|h: int| 0 <= h < 24 && (*final(self), r@) == old(self).step(msg, h),
    {
        let hour = local_hour();
        self.update_at(msg, hour)
    }
}

impl Default for Window {
    fn default() -> (r: Self)
        ensures
            r == Window::initial(),
    {
        Window { enabled: false, level: Intensity::Warm, auto: false, last_auto_toggle: None }
    }
}

} // verus!
