use vstd::prelude::*;

verus! {

/// The settings of the service.
#[derive(Debug, Clone)]
pub struct Config {
    pub port: u16,
    pub supabase_url: String,
    pub supabase_publishable_key: String,
    pub supabase_secret_key: Option<String>,
}

/// The settings as the environment gives them, each one optional but the URL.
#[derive(Debug, Clone)]
pub struct ConfigEnv {
    pub port: Option<u16>,
    pub supabase_url: String,
    pub supabase_publishable_key: Option<String>,
    pub supabase_anon_key: Option<String>,
    pub supabase_secret_key: Option<String>,
}

/// Whether the environment names a key for the public API.
pub open spec fn has_public_key(e: ConfigEnv) -> bool {
    e.supabase_publishable_key is Some || e.supabase_anon_key is Some
}

/// The key for the public API: the publishable key, else the anonymous key.
pub open spec fn public_key(e: ConfigEnv) -> Seq<char> {
    match e.supabase_publishable_key {
        Some(k) => k@,
        None => match e.supabase_anon_key {
            Some(a) => a@,
            None => Seq::empty(),
        },
    }
}

/// Whether the environment names a key for the public API.
pub fn names_public_key(e: &ConfigEnv) -> (r: bool)
    ensures
        r == has_public_key(*e),
{
    e.supabase_publishable_key.is_some() || e.supabase_anon_key.is_some()
}

pub open spec fn resolved_port(e: ConfigEnv) -> u16 {
    match e.port {
        Some(p) => p,
        None => 3001,
    }
}

impl Config {
    /// The settings from what the environment gives: port 3001 by default,
    /// the publishable key or else the anonymous one. Where the environment
    /// names neither key, the key is empty; callers check `has_public_key`
    /// first.
    pub fn from_env_values(e: ConfigEnv) -> (r: Config)
        ensures
            r.port == resolved_port(e),
            r.supabase_url@ == e.supabase_url@,
            r.supabase_publishable_key@ == public_key(e),
            r.supabase_secret_key == e.supabase_secret_key,
    {
        let key = match e.supabase_publishable_key {
            Some(k) => k,
            None => match e.supabase_anon_key {
                Some(a) => a,
                None => String::new(),
            },
        };
        let port: u16 = match e.port {
            Some(p) => p,
            None => 3001,
        };
        Config {
            port,
            supabase_url: e.supabase_url,
            supabase_publishable_key: key,
            supabase_secret_key: e.supabase_secret_key,
        }
    }
}

/// A `Config` cannot be named exactly in a spec where the environment gives no
/// key (the empty key is a fresh `String`), so `from` states its result over
/// the views of the texts in its own `ensures`; `from_spec` names a settings
/// value with those views.
impl vstd::std_specs::convert::FromSpecImpl<ConfigEnv> for Config {
    open spec fn obeys_from_spec() -> bool {
        false
    }

    open spec fn from_spec(e: ConfigEnv) -> Config {
        choose|c: Config|
            c.port == resolved_port(e) && c.supabase_url@ == e.supabase_url@
                && c.supabase_publishable_key@ == public_key(e) && c.supabase_secret_key
                == e.supabase_secret_key
    }
}

impl From<ConfigEnv> for Config {
    fn from(e: ConfigEnv) -> (r: Config)
        ensures
            r.port == resolved_port(e),
            r.supabase_url@ == e.supabase_url@,
            r.supabase_publishable_key@ == public_key(e),
            r.supabase_secret_key == e.supabase_secret_key,
    {
        Config::from_env_values(e)
    }
}

} // verus!
