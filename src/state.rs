use vstd::prelude::*;
use crate::intensity::{Intensity, code_of, level_of};

verus! {

/// A level code outside 1 to 3, refused by the store.
#[derive(Clone, Copy, Debug, PartialEq, Eq, Structural)]
pub struct InvalidLevel {
    pub code: u8,
}

/// The authoritative night-light setting held by the service. Writes are
/// independent: a level may be stored while the filter is off.
#[derive(Clone, Copy, Debug, PartialEq, Eq, Structural)]
pub struct NightLightState {
    pub enabled: bool,
    pub level: Intensity,
}

impl NightLightState {
    /// The setting on every service start: off, at `Warm`.
    pub fn new() -> (r: Self)
        ensures
            r.enabled == false,
            r.level == Intensity::Warm,
    {
        Self { enabled: false, level: Intensity::Warm }
    }

    /// Whether the filter is on.
    pub fn enabled(&self) -> (r: bool)
        ensures
            r == self.enabled,
    {
        self.enabled
    }

    /// The wire code of the stored level.
    pub fn level(&self) -> (r: u8)
        ensures
            r == code_of(self.level),
    {
        self.level.code()
    }

    /// Stores the enabled flag unconditionally.
    pub fn set_enabled(&mut self, enabled: bool)
        ensures
            *final(self) == (NightLightState { enabled, ..*old(self) }),
    {
        self.enabled = enabled;
    }

    /// Stores the level of a wire code; a code outside 1 to 3 is refused and
    /// leaves the state as it was.
    pub fn set_level(&mut self, code: u8) -> (r: Result<(), InvalidLevel>)
        ensures
            match level_of(code) {
                Some(lv) => r is Ok && *final(self) == (NightLightState { level: lv, ..*old(self) }),
                None => r == Err::<(), InvalidLevel>(InvalidLevel { code }) && *final(self) == *old(self),
            },
    {
        match Intensity::from_code(code) {
            Some(lv) => {
                self.level = lv;
                Ok(())
            },
            None => Err(InvalidLevel { code }),
        }
    }
}

} // verus!
