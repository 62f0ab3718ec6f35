use vstd::prelude::*;

use crate::config::Config;

verus! {

/// Where the backing services are reached, and with which keys.
#[derive(Debug, Clone)]
pub struct Client {
    pub url: String,
    pub publishable_key: String,
    pub service_role_key: Option<String>,
}

/// Why a client could not be set up.
#[derive(Debug, Clone, Copy, PartialEq, Eq)]
pub enum ClientError {
    /// The settings name no secret key.
    MissingSecretKey,
}

/// A client with the public key of `config`.
pub fn create_client(config: &Config) -> (r: Client)
    ensures
        r.url@ == config.supabase_url@,
        r.publishable_key@ == config.supabase_publishable_key@,
        r.service_role_key is None,
{
    Client {
        url: config.supabase_url.clone(),
        publishable_key: config.supabase_publishable_key.clone(),
        service_role_key: None,
    }
}

/// A client that also holds the secret key of `config`; an error where the
/// settings name none.
pub fn create_client_with_secret(config: &Config) -> (r: Result<Client, ClientError>)
    ensures
        config.supabase_secret_key is None ==> r == Err::<Client, ClientError>(
            ClientError::MissingSecretKey,
        ),
        config.supabase_secret_key matches Some(s) ==> {
            &&& r is Ok
            &&& r->Ok_0.url@ == config.supabase_url@
            &&& r->Ok_0.publishable_key@ == config.supabase_publishable_key@
            &&& r->Ok_0.service_role_key matches Some(k) && k@ == s@
        },
{
    match &config.supabase_secret_key {
        Some(secret) => Ok(
            Client {
                url: config.supabase_url.clone(),
                publishable_key: config.supabase_publishable_key.clone(),
                service_role_key: Some(secret.clone()),
            },
        ),
        None => Err(ClientError::MissingSecretKey),
    }
}

} // verus!
