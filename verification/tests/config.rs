use std::path::PathBuf;

use osrs_prices::client::{Client, APP_USER_AGENT};
use osrs_prices::config::{Cli, ClientConfig, Config, DEFAULT_PRICE_CACHE_TTL_SECS};
use osrs_prices::loader::{Dataset, Phase, Request};
use osrs_prices::policy::{RefreshPolicy, TimeSpan};

fn cli(cache_dir: Option<PathBuf>) -> Cli {
    Cli {
        item: String::from("twisted"),
        cache_dir,
        price_cache_ttl_secs: DEFAULT_PRICE_CACHE_TTL_SECS,
        refresh_prices: true,
        refresh_mappings: false,
    }
}

#[test]
fn default_ttl_is_five_minutes() {
    assert_eq!(DEFAULT_PRICE_CACHE_TTL_SECS, 300);
}

#[test]
fn config_takes_over_what_the_command_line_gave() {
    let config = Config::from_cli(cli(Some(PathBuf::from("/tmp/prices"))));
    assert_eq!(config.item, "twisted");
    assert!(config.refresh_prices);
    assert!(!config.refresh_mappings);
    assert_eq!(config.client.cache_dir, PathBuf::from("/tmp/prices"));
    assert_eq!(config.client.price_cache_ttl.secs, 300);
    assert_eq!(config.client.price_cache_ttl.nanos, 0);
}

#[test]
fn conversion_agrees_with_from_cli() {
    let config: Config = cli(Some(PathBuf::from("here"))).into();
    assert_eq!(config.client.cache_dir, PathBuf::from("here"));
    assert_eq!(config.item, "twisted");
    let config = Config::from(cli(Some(PathBuf::from("there"))));
    assert_eq!(config.client.cache_dir, PathBuf::from("there"));
}

#[test]
fn resolve_uses_the_default_only_where_no_directory_is_named() {
    let named = Config::resolve(cli(Some(PathBuf::from("named"))), PathBuf::from("default"));
    assert_eq!(named.client.cache_dir, PathBuf::from("named"));
    let unnamed = Config::resolve(cli(None), PathBuf::from("default"));
    assert_eq!(unnamed.client.cache_dir, PathBuf::from("default"));
    assert_eq!(unnamed.item, "twisted");
    assert!(unnamed.refresh_prices);
    assert!(!unnamed.refresh_mappings);
    assert_eq!(unnamed.client.price_cache_ttl.secs, 300);
}

#[test]
fn fallback_cache_dir_is_used_where_the_system_offers_none() {
    assert_eq!(Config::cache_dir_or_fallback(None), PathBuf::from("cache_dir"));
    assert_eq!(
        Config::cache_dir_or_fallback(Some(PathBuf::from("/home/alice/.cache/osrs_prices"))),
        PathBuf::from("/home/alice/.cache/osrs_prices")
    );
}

#[test]
fn default_cache_dir_follows_the_project_directories() {
    let dir = Config::default_cache_dir();
    match Config::project_dirs() {
        Some(dirs) => assert_eq!(dir, dirs.cache_dir().to_path_buf()),
        None => assert_eq!(dir, PathBuf::from("cache_dir")),
    }
}

#[test]
fn unnamed_cache_dir_is_the_default_one() {
    let config = Config::from_cli(cli(None));
    assert_eq!(config.client.cache_dir, Config::default_cache_dir());
}

#[test]
fn client_keeps_its_config() {
    let config = ClientConfig {
        cache_dir: PathBuf::from("cache"),
        price_cache_ttl: TimeSpan::from_secs(17),
    };
    let client = Client::try_from_config(config).expect("Client should be created");
    assert_eq!(client.config.cache_dir, PathBuf::from("cache"));
    assert_eq!(client.config.price_cache_ttl.secs, 17);
    assert_eq!(APP_USER_AGENT, "osrs_prices/0.1.0");
}

#[test]
fn client_begins_loads_under_the_right_policy() {
    let config = ClientConfig {
        cache_dir: PathBuf::from("cache"),
        price_cache_ttl: TimeSpan::from_secs(17),
    };
    let client = Client::try_from_config(config).expect("Client should be created");

    let mappings = client.get_mappings(false);
    assert_eq!(mappings.dataset, Dataset::Mappings);
    assert!(matches!(mappings.policy, RefreshPolicy::PresenceOnly));
    assert!(matches!(mappings.phase, Phase::Probing));
    assert!(matches!(client.get_mappings(true).request(), Request::Fetch));

    let prices = client.get_prices(false);
    assert_eq!(prices.dataset, Dataset::Prices);
    match prices.policy {
        RefreshPolicy::Ttl(ttl) => {
            assert_eq!(ttl.secs, 17);
            assert_eq!(ttl.nanos, 0);
        }
        RefreshPolicy::PresenceOnly => panic!("prices go by their age"),
    }
    assert!(matches!(prices.request(), Request::Exists));
    assert!(matches!(client.get_prices(true).request(), Request::Fetch));
}

#[test]
fn client_is_refused_where_the_transport_cannot_be_built() {
    let config = ClientConfig {
        cache_dir: PathBuf::from("cache"),
        price_cache_ttl: TimeSpan::from_secs(17),
    };
    let failed = reqwest::Client::builder().user_agent("two\nlines").build();
    assert!(failed.is_err());
    match Client::assemble(config, failed) {
        Ok(_) => panic!("no client can be made without a transport"),
        Err(error) => assert_eq!(error, osrs_prices::client::ClientError::TransportUnavailable),
    }
}

#[test]
fn client_is_assembled_around_the_transport_it_is_given() {
    let config = ClientConfig {
        cache_dir: PathBuf::from("elsewhere"),
        price_cache_ttl: TimeSpan::from_secs(1),
    };
    let built = reqwest::Client::builder().user_agent(APP_USER_AGENT).build();
    let client = Client::assemble(config, built).expect("Client should be created");
    assert_eq!(client.config.cache_dir, PathBuf::from("elsewhere"));
    assert_eq!(client.config.price_cache_ttl.secs, 1);
}
