use vstd::prelude::*;

use crate::backend::Backend;
use crate::error::TracerError;
use crate::generator::{declare_all, ProviderGenerator};
use crate::provider::{define_outcome, Provider, Tracer};

verus! {

/// Where a provider's one-time setup stands. Both resolved states are final.
pub enum SlotState {
    Uninitialized,
    Registered(Provider),
    Failed(TracerError),
}

/// The outcome a resolved state holds, as the definition returned it.
pub open spec fn outcome_of(s: SlotState) -> Result<Provider, TracerError> {
    match s {
        SlotState::Registered(p) => Ok(p),
        SlotState::Failed(e) => Err(e),
        SlotState::Uninitialized => Err(TracerError::ConfigurationError),
    }
}

/// The slot of one probe interface: set up at first use, once, and read
/// afterwards. A failed setup is remembered, never retried.
pub struct ProviderSlot {
    state: SlotState,
}

impl ProviderSlot {
    pub closed spec fn state(&self) -> SlotState {
        self.state
    }

    /// A slot whose setup has not run.
    pub fn new() -> (r: ProviderSlot)
        ensures
            r.state() is Uninitialized,
    {
        ProviderSlot { state: SlotState::Uninitialized }
    }

    /// Whether the setup has run, successfully or not.
    pub fn is_resolved(&self) -> (r: bool)
        ensures
            r == !(self.state() is Uninitialized),
    {
        !matches!(self.state, SlotState::Uninitialized)
    }

    /// Runs the setup if it has not run, and returns the provider if the
    /// setup succeeded. Once the slot is resolved, the call changes nothing:
    /// neither the slot nor the tracer, so the backend is never asked to
    /// create the provider a second time.
    pub fn get<'s, B: Backend>(
        &'s mut self,
        tracer: &mut Tracer<B>,
        generator: &ProviderGenerator,
    ) -> (r: Option<&'s Provider>)
        ensures
            !(old(self).state() is Uninitialized) ==> final(self).state() == old(self).state()
                && *final(tracer) == *old(tracer),
            old(self).state() is Uninitialized ==> define_outcome(
                *old(tracer),
                *final(tracer),
                generator.name_spec(),
                declare_all(generator.signatures()),
                outcome_of(final(self).state()),
            ),
            !(final(self).state() is Uninitialized),
            match final(self).state() {
                SlotState::Registered(p) => r == Some(&p),
                _ => r is None,
            },
    {
        if let SlotState::Uninitialized = self.state {
            self.state = match generator.generate(tracer) {
                Ok(p) => SlotState::Registered(p),
                Err(e) => SlotState::Failed(e),
            };
        }
        match &self.state {
            SlotState::Registered(p) => Some(p),
            _ => None,
        }
    }

    /// The error of a setup that ran and failed; `None` if it has not run
    /// or succeeded. Never runs the setup.
    pub fn get_init_error(&self) -> (r: Option<TracerError>)
        ensures
            r == match self.state() {
                SlotState::Failed(e) => Some(e),
                _ => None,
            },
    {
        match self.state {
            SlotState::Failed(e) => Some(e),
            _ => None,
        }
    }

    /// Runs the setup if it has not run, and returns its error if it failed.
    pub fn try_init<B: Backend>(&mut self, tracer: &mut Tracer<B>, generator: &ProviderGenerator) -> (r:
        Option<TracerError>)
        ensures
            !(old(self).state() is Uninitialized) ==> final(self).state() == old(self).state()
                && *final(tracer) == *old(tracer),
            old(self).state() is Uninitialized ==> define_outcome(
                *old(tracer),
                *final(tracer),
                generator.name_spec(),
                declare_all(generator.signatures()),
                outcome_of(final(self).state()),
            ),
            !(final(self).state() is Uninitialized),
            r == match final(self).state() {
                SlotState::Failed(e) => Some(e),
                _ => None,
            },
    {
        let _ = self.get(tracer, generator);
        self.get_init_error()
    }
}

} // verus!
