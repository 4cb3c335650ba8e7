use std::sync::Arc;
use vstd::prelude::*;
use parking_lot::Mutex;
use crate::intensity::{Intensity, level_of};
use crate::state::{InvalidLevel, NightLightState};

verus! {

#[verifier::external_type_specification]
#[verifier::external_body]
pub struct ExRawMutex(parking_lot::RawMutex);

#[verifier::external_type_specification]
#[verifier::external_body]
#[verifier::reject_recursive_types(R)]
#[verifier::reject_recursive_types(T)]
pub struct ExLockApiMutex<R, T: ?Sized>(parking_lot::lock_api::Mutex<R, T>);

/// Relies on parking_lot's `Mutex::new`: a fresh lock around the state.
/// Other holders of the lock may change the state at any time, so nothing is
/// claimed of what it holds later.
#[verifier::external_body]
fn new_lock(s: NightLightState) -> Mutex<NightLightState> {
    Mutex::new(s)
}

/// Relies on parking_lot's `Mutex::lock`: a copy of the state, taken under
/// the lock so that both fields come from one write.
#[verifier::external_body]
fn load(m: &Mutex<NightLightState>) -> NightLightState {
    *m.lock()
}

/// Relies on parking_lot's `Mutex::lock`: writes the flag under the lock.
#[verifier::external_body]
fn store_enabled(m: &Mutex<NightLightState>, enabled: bool) {
    m.lock().enabled = enabled;
}

/// Relies on parking_lot's `Mutex::lock`: writes the level under the lock.
#[verifier::external_body]
fn store_level(m: &Mutex<NightLightState>, level: Intensity) {
    m.lock().level = level;
}

/// The service's state shared between concurrent callers. Each operation
/// holds the lock only for its own read or write.
#[derive(Clone)]
pub struct StateStore {
    inner: Arc<Mutex<NightLightState>>,
}

impl StateStore {
    /// A store holding `NightLightState::new()`.
    pub fn new() -> Self {
        StateStore { inner: Arc::new(new_lock(NightLightState::new())) }
    }

    /// Whether the filter is on.
    pub fn enabled(&self) -> bool {
        load(&self.inner).enabled
    }

    /// The wire code of the stored level.
    pub fn level(&self) -> (r: u8)
        ensures
            1 <= r <= 3,
    {
        load(&self.inner).level()
    }

    /// Stores the enabled flag.
    pub fn set_enabled(&self, enabled: bool) {
        store_enabled(&self.inner, enabled);
    }

    /// Stores the level of a wire code; a code outside 1 to 3 is refused and
    /// nothing is written.
    pub fn set_level(&self, code: u8) -> (r: Result<(), InvalidLevel>)
        ensures
            r is Ok <==> level_of(code) is Some,
            r is Err ==> r == Err::<(), InvalidLevel>(InvalidLevel { code }),
    {
        match Intensity::from_code(code) {
            Some(lv) => {
                store_level(&self.inner, lv);
                Ok(())
            },
            None => Err(InvalidLevel { code }),
        }
    }
}

} // verus!
