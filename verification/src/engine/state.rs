use vstd::prelude::*;

verus! {

/// The state that a DLL keeps between the engine's calls: empty until the
/// DLL is loaded, and again after it is unloaded.
#[derive(Debug)]
pub struct StateSingleton<T> {
    pub slot: Option<T>,
}

impl<T> StateSingleton<T> {
    pub fn new() -> (r: StateSingleton<T>)
        ensures
            r.slot is None,
    {
        StateSingleton { slot: None }
    }

    pub fn is_alive(&self) -> (r: bool)
        ensures
            r == self.slot is Some,
    {
        self.slot.is_some()
    }

    /// Takes the state when the DLL is loaded; it must not hold one already.
    pub fn create(&mut self, state: T)
        requires
            old(self).slot is None,
        ensures
            final(self).slot == Some(state),
    {
        self.slot = Some(state);
    }

    /// Drops the state when the DLL is unloaded; it must hold one.
    pub fn destroy(&mut self)
        requires
            old(self).slot is Some,
        ensures
            final(self).slot is None,
    {
        self.slot = None;
    }

    /// The state, while the DLL is loaded.
    pub fn with(&self) -> (r: &T)
        requires
            self.slot is Some,
        ensures
            *r == self.slot.unwrap(),
    {
        match &self.slot {
            Some(state) => state,
            None => vstd::pervasive::unreached(),
        }
    }
}

} // verus!
