//! The client: the transport it fetches with, its settings, and the loads it
//! begins.

use vstd::prelude::*;
use reqwest::Client as HttpClient;
use reqwest::Error as HttpError;
use crate::config::ClientConfig;
use crate::loader::{Dataset, Loader};
use crate::model::{ItemMapping, PriceResults};
use crate::policy::RefreshPolicy;

verus! {

/// The HTTP client that requests go out through.
#[verifier::external_type_specification]
#[verifier::external_body]
pub struct ExHttpClient(HttpClient);

/// Why no HTTP client could be made.
#[verifier::external_type_specification]
#[verifier::external_body]
pub struct ExHttpError(HttpError);

/// Calls `reqwest::Client::builder`, `ClientBuilder::user_agent` and
/// `ClientBuilder::build`: a client that names itself `user_agent` in every
/// request, or the error where the name is no header value, the TLS backend
/// cannot be set up or the resolver cannot read the system's settings.
/// Whether it succeeds depends on the machine, so nothing is said of it.
#[verifier::external_body]
fn build_transport(user_agent: &str) -> (built: Result<HttpClient, HttpError>)
{
    HttpClient::builder().user_agent(user_agent).build()
}

/// How the client names itself to the remote service.
pub const APP_USER_AGENT: &'static str = "osrs_prices/0.1.0";

/// Why a client could not be made.
#[derive(Clone, Copy, Debug, PartialEq, Eq, Structural)]
pub enum ClientError {
    /// The HTTP client could not be built.
    TransportUnavailable,
}

/// Client of the price service.
#[derive(Debug)]
pub struct Client {
    /// The transport: whoever drives a load fetches through it.
    pub client: HttpClient,
    /// The settings the client was made with.
    pub config: ClientConfig,
}

impl Client {
    /// Makes the client of `config` from the outcome of building its
    /// transport.
    pub fn assemble(config: ClientConfig, built: Result<HttpClient, HttpError>) -> (made:
        Result<Client, ClientError>)
        ensures
            made == match built {
                Ok(client) => Ok::<Client, ClientError>(Client { client, config }),
                Err(_) => Err::<Client, ClientError>(ClientError::TransportUnavailable),
            },
    {
        match built {
            Ok(client) => Ok(Client { client, config }),
            Err(_) => Err(ClientError::TransportUnavailable),
        }
    }

    /// Builds the transport and makes the client of `config` with it. It
    /// fails only where the transport cannot be built.
    pub fn try_from_config(config: ClientConfig) -> (made: Result<Client, ClientError>)
        ensures
            made matches Ok(client) ==> client.config == config,
            made matches Err(error) ==> error == ClientError::TransportUnavailable,
    {
        Client::assemble(config, build_transport(APP_USER_AGENT))
    }

    /// Begins a load of the item mapping. Once cached, the mapping is used
    /// for as long as its file exists, unless `force_refresh` is set.
    pub fn get_mappings(&self, force_refresh: bool) -> (loader: Loader<Vec<ItemMapping>>)
        ensures
            loader == Loader::<Vec<ItemMapping>>::initial(
                Dataset::Mappings,
                RefreshPolicy::PresenceOnly,
                force_refresh,
            ),
    {
        Loader::start(Dataset::Mappings, RefreshPolicy::PresenceOnly, force_refresh)
    }

    /// Begins a load of the price table. The cached table is used while it
    /// is no older than the configured time to live, unless `force_refresh`
    /// is set.
    pub fn get_prices(&self, force_refresh: bool) -> (loader: Loader<PriceResults>)
        ensures
            loader == Loader::<PriceResults>::initial(
                Dataset::Prices,
                RefreshPolicy::Ttl(self.config.price_cache_ttl),
                force_refresh,
            ),
    {
        Loader::start(Dataset::Prices, RefreshPolicy::Ttl(self.config.price_cache_ttl), force_refresh)
    }
}

} // verus!
