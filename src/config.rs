//! The bridge's configuration, set once at startup and read-only after.
use vstd::prelude::*;

verus! {

#[derive(Debug, Clone)]
pub struct Config {
    pub qq: QQ,
    pub matrix: Matrix,
}

#[derive(Debug, Clone)]
pub struct QQ {
    /// Groups to bridge
    pub groups: Vec<i64>,
}

#[derive(Debug, Clone)]
pub struct Matrix {
    /// Target homeserver's name, like `matrix.org`
    pub homeserver_name: String,
    /// URL to connect to the homeserver, like `http://127.0.0.1:6517` or `https://matrix.org`
    pub homeserver_url: String,
}

/// Whether `v` holds `x`.
pub fn contains_i64(v: &Vec<i64>, x: i64) -> (r: bool)
    ensures
        r == v@.contains(x),
{
    let mut i: usize = 0;
    while i < v.len()
        invariant
            i <= v@.len(),
            forall|k: int| 0 <= k < i ==> v@[k] != x,
        decreases v@.len() - i,
    {
        if v[i] == x {
            return true;
        }
        i = i + 1;
    }
    false
}

impl QQ {
    /// Whether the group `group_id` is one of the bridged groups.
    pub fn is_bridged(&self, group_id: i64) -> (r: bool)
        ensures
            r == self.groups@.contains(group_id),
    {
        contains_i64(&self.groups, group_id)
    }
}

#[derive(Debug, Clone, Copy, PartialEq, Eq, Structural)]
pub enum ConfigError {
    /// The configuration was read before it was set.
    NotInitialized,
    /// A second configuration was offered after the first.
    AlreadyInitialized,
}

/// A slot for the configuration that can be filled once.
#[derive(Debug)]
pub struct ConfigCell {
    inner: Option<Config>,
}

impl View for ConfigCell {
    type V = Option<Config>;

    closed spec fn view(&self) -> Option<Config> {
        self.inner
    }
}

impl ConfigCell {
    /// An empty slot.
    pub fn new() -> (r: ConfigCell)
        ensures
            r@ is None,
    {
        ConfigCell { inner: None }
    }

    /// Fills the slot; a second call is refused and leaves the first value in
    /// place.
    pub fn init(&mut self, config: Config) -> (r: Result<(), ConfigError>)
        ensures
            old(self)@ is None ==> r is Ok && final(self)@ == Some(config),
            old(self)@ is Some ==> r == Err::<(), ConfigError>(ConfigError::AlreadyInitialized)
                && final(self)@ == old(self)@,
    {
        if self.inner.is_some() {
            Err(ConfigError::AlreadyInitialized)
        } else {
            self.inner = Some(config);
            Ok(())
        }
    }

    /// The configuration, once set.
    pub fn get(&self) -> (r: Option<&Config>)
        ensures
            match self@ {
                Some(c) => r == Some(&c),
                None => r is None,
            },
    {
        match &self.inner {
            Some(c) => Some(c),
            None => None,
        }
    }
}

/// The chat network's part of the configuration.
pub fn get_config(cell: &ConfigCell) -> (r: Result<&Matrix, ConfigError>)
    ensures
        match cell@ {
            Some(c) => r == Ok::<&Matrix, ConfigError>(&c.matrix),
            None => r == Err::<&Matrix, ConfigError>(ConfigError::NotInitialized),
        },
{
    match cell.get() {
        Some(c) => Ok(&c.matrix),
        None => Err(ConfigError::NotInitialized),
    }
}

} // verus!
