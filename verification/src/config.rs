//! The connection configuration store.
//!
//! Every tool handler needs the base URL (and optional credential) of the
//! service it wraps. The store hands each reader a copy of the whole
//! configuration — never a live reference into the store — so a reader's
//! snapshot cannot be a mixture of an old and a new configuration. Under a
//! concurrent runtime the store sits behind the runtime's reader-writer
//! lock; the copy-out discipline verified here is what makes a read a
//! single consistent value.

use vstd::prelude::*;

verus! {

/// What a handler needs to reach its downstream service.
#[derive(Debug)]
pub struct ConnectionConfig {
    pub base_url: String,
    pub api_key: Option<String>,
}

impl ConnectionConfig {
    /// A field-for-field copy of this configuration.
    pub fn duplicate(&self) -> (r: ConnectionConfig)
        ensures
            r == *self,
    {
        ConnectionConfig {
            base_url: self.base_url.clone(),
            api_key: match &self.api_key {
                Some(k) => Some(k.clone()),
                None => None,
            },
        }
    }
}

/// Holder of the configuration, unset until initialized.
#[derive(Debug)]
pub struct ConfigStore {
    current: Option<ConnectionConfig>,
}

impl ConfigStore {
    /// The configuration the store holds, if any.
    pub closed spec fn config(&self) -> Option<ConnectionConfig> {
        self.current
    }

    /// A store with no configuration set.
    pub fn new() -> (r: ConfigStore)
        ensures
            r.config() is None,
    {
        ConfigStore { current: None }
    }

    /// Sets the configuration. Initialization happens once in the common
    /// startup path, but setting it again (reconfiguration) replaces the
    /// held value as a whole.
    pub fn initialize(&mut self, c: ConnectionConfig)
        ensures
            final(self).config() == Some(c),
    {
        self.current = Some(c);
    }

    /// A snapshot of the configuration: the returned value equals the
    /// stored configuration in full, so no reader ever sees a partially
    /// replaced value; `None` when the store was never initialized.
    pub fn get(&self) -> (r: Option<ConnectionConfig>)
        ensures
            r == self.config(),
    {
        match &self.current {
            Some(c) => Some(c.duplicate()),
            None => None,
        }
    }
}

/// Two reads from one store state observe the same configuration: a
/// snapshot is the whole stored value, never an interleaving of two.
/// (Under a concurrent runtime, the surrounding lock makes each read act
/// on one store state; this says that reads of one state cannot differ.)
pub proof fn lemma_snapshots_agree(
    store: ConfigStore,
    a: Option<ConnectionConfig>,
    b: Option<ConnectionConfig>,
)
    requires
        a == store.config(),
        b == store.config(),
    ensures
        a == b,
{
}

} // verus!
