//! Manager configuration: the ZFS pool, the VM root and the API keys.
use vstd::hash_map::StringHashMap;
use vstd::prelude::*;

verus! {

/// Manager configuration (read from `config.toml`).
pub struct Config {
    pub zfs_pool: String,
    pub vm_root: String,
    pub api: ApiConfig,
}

/// API configuration: whether keys are checked, and the keys.
pub struct ApiConfig {
    pub auth_enabled: bool,
    pub keys: StringHashMap<ApiKey>,
}

/// What an API key stands for: a name and a role.
#[derive(Debug)]
pub struct ApiKey {
    pub name: String,
    pub role: String,
}

/// The model of an API key's information.
pub struct ApiKeyView {
    pub name: Seq<char>,
    pub role: Seq<char>,
}

impl View for ApiKey {
    type V = ApiKeyView;

    open spec fn view(&self) -> ApiKeyView {
        ApiKeyView { name: self.name@, role: self.role@ }
    }
}

/// Authentication is on unless the configuration turns it off.
pub fn default_auth_enabled() -> (r: bool)
    ensures
        r,
{
    true
}

/// A key without a role is an admin key.
pub fn default_role() -> (r: String)
    ensures
        r@ == "admin"@,
{
    "admin".to_owned()
}

impl ApiKey {
    /// An API key's information from its name and role.
    pub fn new(name: &str, role: &str) -> (k: Self)
        ensures
            k@ == (ApiKeyView { name: name@, role: role@ }),
    {
        ApiKey { name: name.to_owned(), role: role.to_owned() }
    }

    /// A copy of the key's information.
    pub fn duplicate(&self) -> (k: Self)
        ensures
            k@ == self@,
    {
        ApiKey { name: self.name.clone(), role: self.role.clone() }
    }
}

impl ApiConfig {
    /// An API configuration without keys.
    pub fn new(auth_enabled: bool) -> (c: Self)
        ensures
            c.auth_enabled == auth_enabled,
            c.keys@ == Map::<Seq<char>, ApiKey>::empty(),
    {
        ApiConfig { auth_enabled, keys: StringHashMap::new() }
    }

    /// Adds (or replaces) a key.
    pub fn add_key(&mut self, key: String, info: ApiKey)
        ensures
            final(self).auth_enabled == old(self).auth_enabled,
            final(self).keys@ == old(self).keys@.insert(key@, info),
    {
        self.keys.insert(key, info);
    }

    /// The number of keys.
    pub fn key_count(&self) -> (n: usize)
        ensures
            n == self.keys@.len(),
    {
        self.keys.len()
    }
}

impl Default for ApiConfig {
    fn default() -> (c: Self)
        ensures
            c.auth_enabled,
            c.keys@ == Map::<Seq<char>, ApiKey>::empty(),
    {
        ApiConfig { auth_enabled: default_auth_enabled(), keys: StringHashMap::new() }
    }
}

/// What a presented key is worth: with authentication off, any key is the
/// anonymous admin; otherwise a configured key is worth its information, and
/// any other key nothing.
pub open spec fn key_validation(auth_enabled: bool, keys: Map<Seq<char>, ApiKeyView>, key: Seq<
    char,
>) -> Option<ApiKeyView> {
    if !auth_enabled {
        Some(ApiKeyView { name: "anonymous"@, role: "admin"@ })
    } else if keys.contains_key(key) {
        Some(keys[key])
    } else {
        None
    }
}

/// The model of the configured keys.
pub open spec fn keys_view(keys: Map<Seq<char>, ApiKey>) -> Map<Seq<char>, ApiKeyView> {
    keys.map_values(|k: ApiKey| k@)
}

impl Config {
    /// Validate an API key and return the info if valid.
    pub fn validate_api_key(&self, key: &str) -> (r: Option<ApiKey>)
        ensures
            match key_validation(self.api.auth_enabled, keys_view(self.api.keys@), key@) {
                Some(v) => r matches Some(k) && k@ == v,
                None => r is None,
            },
    {
        if !self.api.auth_enabled {
            // If auth is disabled, treat any key as valid admin
            return Some(ApiKey::new("anonymous", "admin"));
        }
        match self.api.keys.get(key) {
            Some(info) => Some(info.duplicate()),
            None => None,
        }
    }
}

} // verus!
