use vstd::prelude::*;

verus! {

/// A snapshot of the keyspace: the keys read, their total memory, whether the
/// server was reachable and the error met, if any.
#[derive(Debug, Clone)]
pub struct RedisData {
    pub keys: Vec<KeyInfo>,
    pub total_memory: u64,
    pub connected: bool,
    pub error: Option<String>,
}

impl Default for RedisData {
    fn default() -> (r: Self)
        ensures
            r.keys@.len() == 0,
            r.total_memory == 0,
            !r.connected,
            r.error is None,
    {
        RedisData { keys: Vec::new(), total_memory: 0, connected: false, error: None }
    }
}

/// What is known of one key: its name, Redis type, TTL in seconds (-1: none,
/// -2: gone), memory use in bytes and a short preview of its value.
#[derive(Debug, Clone)]
pub struct KeyInfo {
    pub name: String,
    pub key_type: String,
    pub ttl: i64,
    pub memory_bytes: u64,
    pub value_preview: String,
}

/// Two key descriptions hold the same text and numbers.
pub open spec fn same_key_info(a: KeyInfo, b: KeyInfo) -> bool {
    &&& a.name@ == b.name@
    &&& a.key_type@ == b.key_type@
    &&& a.ttl == b.ttl
    &&& a.memory_bytes == b.memory_bytes
    &&& a.value_preview@ == b.value_preview@
}

impl KeyInfo {
    /// A copy of this description.
    pub fn duplicate(&self) -> (r: KeyInfo)
        ensures
            same_key_info(r, *self),
    {
        KeyInfo {
            name: self.name.clone(),
            key_type: self.key_type.clone(),
            ttl: self.ttl,
            memory_bytes: self.memory_bytes,
            value_preview: self.value_preview.clone(),
        }
    }
}

/// How urgent the expiry of a key is, derived from its TTL in seconds.
#[derive(Debug, Clone, Copy, PartialEq, Eq, Structural)]
pub enum TtlStatus {
    NoExpiration,
    Expired,
    Urgent(i64),
    Warning(i64),
    Normal(i64),
}

/// The classification of a TTL value.
pub open spec fn spec_ttl_status(ttl: i64) -> TtlStatus {
    if ttl == -1 {
        TtlStatus::NoExpiration
    } else if ttl < 60 {
        TtlStatus::Urgent(ttl)
    } else if ttl < 3600 {
        TtlStatus::Warning(ttl)
    } else {
        TtlStatus::Normal(ttl)
    }
}

impl TtlStatus {
    pub fn from_ttl(ttl: i64) -> (status: Self)
        ensures
            status == spec_ttl_status(ttl),
    {
        if ttl == -1 {
            TtlStatus::NoExpiration
        } else if ttl < 60 {
            TtlStatus::Urgent(ttl)
        } else if ttl < 3600 {
            TtlStatus::Warning(ttl)
        } else {
            TtlStatus::Normal(ttl)
        }
    }
}

} // verus!
