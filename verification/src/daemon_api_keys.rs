//! Daemon API keys: when two versions of a key are the same, when an
//! update is too minor to log, and who may manage a key.
use vstd::prelude::*;

use crate::text::str_equal;

verus! {

/// The data of a daemon API key (instants are Unix seconds). `plaintext`
/// is only present right after the key is generated.
pub struct DaemonApiKeyBase {
    pub key: String,
    pub name: String,
    pub last_used: Option<i64>,
    pub expires_at: Option<i64>,
    pub network_id: u128,
    pub is_enabled: bool,
    pub tags: Vec<u128>,
    pub plaintext: Option<String>,
}

/// A stored daemon API key.
pub struct DaemonApiKey {
    pub id: u128,
    pub updated_at: i64,
    pub created_at: i64,
    pub base: DaemonApiKeyBase,
}

/// Two key records are the same when every field but the plaintext
/// matches: secrets are never compared.
pub open spec fn same_key_data(a: DaemonApiKeyBase, b: DaemonApiKeyBase) -> bool {
    a.key@ == b.key@ && a.name@ == b.name@ && a.last_used == b.last_used && a.expires_at == b.expires_at
        && a.network_id == b.network_id && a.is_enabled == b.is_enabled && a.tags@ == b.tags@
}

/// An update touches only the last use or the tags.
pub open spec fn minor_update(updated: DaemonApiKey, current: DaemonApiKey) -> bool {
    updated.base.key@ == current.base.key@ && updated.base.name@ == current.base.name@
        && updated.base.expires_at == current.base.expires_at && updated.base.network_id == current.base.network_id
        && updated.base.is_enabled == current.base.is_enabled
}

fn same_ids(a: &Vec<u128>, b: &Vec<u128>) -> (r: bool)
    ensures
        r == (a@ == b@),
{
    if a.len() != b.len() {
        return false;
    }
    let mut i: usize = 0;
    while i < a.len()
        invariant
            i <= a@.len(),
            a@.len() == b@.len(),
            forall|j: int| 0 <= j < i ==> a@[j] == b@[j],
        decreases a.len() - i,
    {
        if a[i] != b[i] {
            return false;
        }
        i = i + 1;
    }
    assert(a@ =~= b@);
    true
}

impl DaemonApiKeyBase {
    /// Whether two key records are the same (see `same_key_data`).
    pub fn same_as(&self, other: &DaemonApiKeyBase) -> (r: bool)
        ensures
            r == same_key_data(*self, *other),
    {
        str_equal(self.key.as_str(), other.key.as_str()) && str_equal(self.name.as_str(), other.name.as_str())
            && self.last_used == other.last_used && self.expires_at == other.expires_at
            && self.network_id == other.network_id && self.is_enabled == other.is_enabled
            && same_ids(&self.tags, &other.tags)
    }
}

impl DaemonApiKey {
    /// Whether this update of `current` is too minor to log (see
    /// `minor_update`).
    pub fn suppress_logs(&self, current: &DaemonApiKey) -> (r: bool)
        ensures
            r == minor_update(*self, *current),
    {
        str_equal(self.base.key.as_str(), current.base.key.as_str())
            && str_equal(self.base.name.as_str(), current.base.name.as_str())
            && self.base.expires_at == current.base.expires_at && self.base.network_id == current.base.network_id
            && self.base.is_enabled == current.base.is_enabled
    }
}

/// Whether to log a change of a key: creations and deletions are always
/// logged; updates only when not minor.
pub fn suppress_update_logs(current: Option<&DaemonApiKey>, updated: Option<&DaemonApiKey>) -> (r: bool)
    ensures
        r == (match (current, updated) {
            (Some(c), Some(u)) => minor_update(*u, *c),
            _ => false,
        }),
{
    match (current, updated) {
        (Some(c), Some(u)) => u.suppress_logs(c),
        _ => false,
    }
}

/// Why a key may not be managed.
#[derive(Debug, Clone, Copy, PartialEq, Eq, Structural)]
pub enum KeyAccessError {
    /// The caller has no access to the key's network.
    NoNetworkAccess,
}

impl KeyAccessError {
    pub fn message(&self) -> (s: &'static str)
        ensures
            s == "You don't have access to the network for this daemon API key",
    {
        "You don't have access to the network for this daemon API key"
    }
}

/// A caller may manage a key of a network it has access to.
pub fn validate_access(key: &DaemonApiKey, caller_networks: &Vec<u128>) -> (r: Result<(), KeyAccessError>)
    ensures
        r is Ok <==> caller_networks@.contains(key.base.network_id),
{
    let mut i: usize = 0;
    while i < caller_networks.len()
        invariant
            i <= caller_networks@.len(),
            forall|j: int| 0 <= j < i ==> caller_networks@[j] != key.base.network_id,
        decreases caller_networks.len() - i,
    {
        if caller_networks[i] == key.base.network_id {
            assert(caller_networks@[i as int] == key.base.network_id);
            return Ok(());
        }
        i = i + 1;
    }
    Err(KeyAccessError::NoNetworkAccess)
}

} // verus!
