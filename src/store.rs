use vstd::prelude::*;
use std::sync::Arc;
use crate::configuration::{Config, ConfigView, ConfigError};

verus! {

/// Holds the active configuration document.
///
/// The document is shared behind an `Arc` and is only ever replaced whole, so a
/// reader's snapshot is always one complete document.
pub struct ConfigStore {
    current: Arc<Config>,
}

impl View for ConfigStore {
    type V = ConfigView;

    closed spec fn view(&self) -> ConfigView {
        self.current@
    }
}

/// The active document after a load result is applied: a loaded document
/// replaces it, an error leaves it as it was.
pub open spec fn after_apply(current: ConfigView, result: Result<Config, ConfigError>) -> ConfigView {
    match result {
        Ok(doc) => doc@,
        Err(_) => current,
    }
}

impl ConfigStore {
    /// A store whose active document is `doc`.
    pub fn initialize(doc: Config) -> (r: ConfigStore)
        ensures
            r@ == doc@,
    {
        ConfigStore { current: Arc::new(doc) }
    }

    /// A snapshot of the active document.
    pub fn read(&self) -> (r: Arc<Config>)
        ensures
            r@ == self@,
    {
        Arc::clone(&self.current)
    }

    /// Applies the result of a load: a document replaces the active one whole;
    /// an error leaves the active document unchanged and is handed back so that
    /// the caller can report it.
    pub fn apply(&mut self, result: Result<Config, ConfigError>) -> (r: Result<(), ConfigError>)
        ensures
            final(self)@ == after_apply(old(self)@, result),
            result is Ok <==> r is Ok,
            result is Err ==> r->Err_0 == result->Err_0,
    {
        match result {
            Ok(doc) => {
                self.current = Arc::new(doc);
                Ok(())
            },
            Err(e) => Err(e),
        }
    }
}

/// Applying the same loaded document twice leaves the same active document as
/// applying it once: that document, which readers see after each application.
pub proof fn lemma_apply_idempotent(current: ConfigView, doc: Config)
    ensures
        after_apply(current, Ok(doc)) == doc@,
        after_apply(after_apply(current, Ok(doc)), Ok(doc)) == after_apply(current, Ok(doc)),
{
}

/// A failed reload leaves the active document unchanged.
pub proof fn lemma_apply_error_keeps_document(current: ConfigView, error: ConfigError)
    ensures
        after_apply(current, Err(error)) == current,
{
}

} // verus!
