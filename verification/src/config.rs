//! Settings of a run: what the command line gave, and what the client is
//! handed from it.

use vstd::prelude::*;
use std::path::PathBuf;
use directories::ProjectDirs;
use crate::policy::TimeSpan;

verus! {

/// A path in the file system, carried as it is.
#[verifier::external_type_specification]
#[verifier::external_body]
pub struct ExPathBuf(PathBuf);

/// The directories that the operating system sets aside for a project.
#[verifier::external_type_specification]
#[verifier::external_body]
pub struct ExProjectDirs(ProjectDirs);

/// The path that `PathBuf::from` makes of a text.
pub uninterp spec fn path_of(text: Seq<char>) -> PathBuf;

/// Calls `ProjectDirs::from`: the project's directories as the operating
/// system lays them out, or `None` where no home directory can be found.
/// What comes back depends on the machine and its environment, so nothing
/// is said of it.
#[verifier::external_body]
fn project_dirs_from(qualifier: &str, organization: &str, application: &str) -> (dirs: Option<
    ProjectDirs,
>)
{
    ProjectDirs::from(qualifier, organization, application)
}

/// Calls `ProjectDirs::cache_dir` and copies the path it lends.
#[verifier::external_body]
fn cache_dir_of(dirs: &ProjectDirs) -> (dir: PathBuf)
{
    dirs.cache_dir().into()
}

/// Calls `PathBuf::from` on a text: the path that the text spells.
#[verifier::external_body]
fn path_from(text: &str) -> (path: PathBuf)
    ensures
        path == path_of(text@),
{
    PathBuf::from(text)
}

/// Time to live of the price cache where none is given, in seconds.
pub const DEFAULT_PRICE_CACHE_TTL_SECS: u64 = 300;

/// Qualifier under which the operating system files this program's
/// directories.
pub const QUALIFIER: &'static str = "com";

/// Organization under which the operating system files this program's
/// directories.
pub const ORGANIZATION: &'static str = "darakelian";

/// Name under which the operating system files this program's directories.
pub const APPLICATION: &'static str = "osrs_prices";

/// What the command line gave.
#[derive(Debug)]
pub struct Cli {
    /// Part of an item's name; every item whose name contains it is shown.
    pub item: String,
    /// Directory of the cache, where one was named.
    pub cache_dir: Option<PathBuf>,
    /// Time to live of the price cache, in seconds.
    pub price_cache_ttl_secs: u64,
    /// Fetch the prices even if they are cached.
    pub refresh_prices: bool,
    /// Fetch the mappings even if they are cached.
    pub refresh_mappings: bool,
}

/// Settings of the client.
#[derive(Debug)]
pub struct ClientConfig {
    /// Directory of the cache.
    pub cache_dir: PathBuf,
    /// Time to live of the price cache.
    pub price_cache_ttl: TimeSpan,
}

/// Settings of a run.
#[derive(Debug)]
pub struct Config {
    /// Part of the name of the items to show.
    pub item: String,
    /// Fetch the mappings even if they are cached.
    pub refresh_mappings: bool,
    /// Fetch the prices even if they are cached.
    pub refresh_prices: bool,
    /// Settings of the client.
    pub client: ClientConfig,
}

impl Config {
    /// The settings that the command line `cli` stands for, with
    /// `default_dir` as the cache directory where it names none.
    pub open spec fn resolved(cli: Cli, default_dir: PathBuf) -> Config {
        Config {
            item: cli.item,
            refresh_mappings: cli.refresh_mappings,
            refresh_prices: cli.refresh_prices,
            client: ClientConfig {
                cache_dir: match cli.cache_dir {
                    Some(dir) => dir,
                    None => default_dir,
                },
                price_cache_ttl: TimeSpan { secs: cli.price_cache_ttl_secs, nanos: 0 },
            },
        }
    }

    /// The cache directory where neither the command line nor the operating
    /// system names one.
    pub open spec fn fallback_cache_dir() -> PathBuf {
        path_of("cache_dir"@)
    }

    /// The settings of a run, from what the command line gave.
    pub fn from_cli(cli: Cli) -> (config: Config)
        ensures
            config == Config::resolved(cli, config.client.cache_dir),
    {
        Config::from(cli)
    }

    /// The settings that `cli` stands for, with `default_dir` as the cache
    /// directory where `cli` names none.
    pub fn resolve(cli: Cli, default_dir: PathBuf) -> (config: Config)
        ensures
            config == Config::resolved(cli, default_dir),
    {
        let Cli { item, cache_dir, price_cache_ttl_secs, refresh_prices, refresh_mappings } = cli;
        let cache_dir = match cache_dir {
            Some(dir) => dir,
            None => default_dir,
        };
        let client = ClientConfig {
            cache_dir,
            price_cache_ttl: TimeSpan::from_secs(price_cache_ttl_secs),
        };
        Config { item, refresh_mappings, refresh_prices, client }
    }

    /// The directories that the operating system sets aside for this
    /// program, if it names any.
    pub fn project_dirs() -> (dirs: Option<ProjectDirs>)
    {
        project_dirs_from(QUALIFIER, ORGANIZATION, APPLICATION)
    }

    /// The cache directory to use where the operating system offers `found`:
    /// that directory, or `cache_dir` under the working directory where it
    /// offers none.
    pub fn cache_dir_or_fallback(found: Option<PathBuf>) -> (dir: PathBuf)
        ensures
            dir == match found {
                Some(dir) => dir,
                None => Config::fallback_cache_dir(),
            },
    {
        match found {
            Some(dir) => dir,
            None => path_from("cache_dir"),
        }
    }

    /// The cache directory where the command line names none: the one the
    /// operating system sets aside for this program, else `cache_dir` under
    /// the working directory.
    pub fn default_cache_dir() -> (dir: PathBuf)
    {
        let found = match Config::project_dirs() {
            Some(dirs) => Some(cache_dir_of(&dirs)),
            None => None,
        };
        Config::cache_dir_or_fallback(found)
    }
}

impl vstd::std_specs::convert::FromSpecImpl<Cli> for Config {
    /// Where `cli` names no cache directory the operating system is asked
    /// for one, so no function of `cli` alone gives the result.
    open spec fn obeys_from_spec() -> bool {
        false
    }

    open spec fn from_spec(cli: Cli) -> Config {
        Config::resolved(cli, Config::fallback_cache_dir())
    }
}

impl From<Cli> for Config {
    /// The settings that `cli` stands for. The operating system is asked for
    /// a cache directory only where `cli` names none.
    fn from(cli: Cli) -> (config: Config)
        ensures
            config == Config::resolved(cli, config.client.cache_dir),
    {
        let Cli { item, cache_dir, price_cache_ttl_secs, refresh_prices, refresh_mappings } = cli;
        let cache_dir = match cache_dir {
            Some(dir) => dir,
            None => Config::default_cache_dir(),
        };
        let client = ClientConfig {
            cache_dir,
            price_cache_ttl: TimeSpan::from_secs(price_cache_ttl_secs),
        };
        Config { item, refresh_mappings, refresh_prices, client }
    }
}

} // verus!
