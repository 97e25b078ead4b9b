use vstd::prelude::*;
use vstd::string::StringExecFns;

use crate::predicates::ChainhookConfig;

verus! {

pub const DEFAULT_INGESTION_PORT: u16 = 20455;

pub const DEFAULT_CONTROL_PORT: u16 = 20456;

pub const STACKS_SCAN_THREAD_POOL_SIZE: usize = 10;

pub const BITCOIN_SCAN_THREAD_POOL_SIZE: usize = 10;

pub const STACKS_MAX_PREDICATE_REGISTRATION: usize = 50;

pub const BITCOIN_MAX_PREDICATE_REGISTRATION: usize = 50;

pub const DEFAULT_CACHING_MEMORY_SIZE_MB: usize = 2048;

pub const INGESTION_THREAD_QUEUE_SIZE: usize = 4;

pub const MAINNET_FIRST_INSCRIPTION_HEIGHT: u64 = 767430;

pub const TESTNET_FIRST_INSCRIPTION_HEIGHT: u64 = 2413343;

pub const REGTEST_FIRST_INSCRIPTION_HEIGHT: u64 = 1;

#[derive(Clone, Copy, Debug, PartialEq, Eq, Structural)]
pub enum BitcoinNetwork {
    Mainnet,
    Testnet,
    Regtest,
}

#[derive(Clone, Copy, Debug, PartialEq, Eq, Structural)]
pub enum StacksNetwork {
    Devnet,
    Testnet,
    Mainnet,
}

/// How the node tells the indexer about new Bitcoin blocks.
#[derive(Clone, Debug)]
pub enum BitcoinBlockSignaling {
    /// A ZeroMQ endpoint of bitcoind.
    ZeroMQ(String),
    /// A Stacks node on localhost, sending events to the given ingestion port.
    Stacks(u16),
}

impl BitcoinBlockSignaling {
    /// An identical copy.
    pub fn duplicate(&self) -> (r: BitcoinBlockSignaling)
        ensures
            r == *self,
    {
        match self {
            BitcoinBlockSignaling::ZeroMQ(url) => BitcoinBlockSignaling::ZeroMQ(url.clone()),
            BitcoinBlockSignaling::Stacks(port) => BitcoinBlockSignaling::Stacks(*port),
        }
    }
}

/// Where the chain data comes from, and which networks are followed.
#[derive(Clone, Debug)]
pub struct IndexerConfig {
    pub bitcoind_rpc_url: String,
    pub bitcoind_rpc_username: String,
    pub bitcoind_rpc_password: String,
    pub bitcoin_block_signaling: BitcoinBlockSignaling,
    pub stacks_network: StacksNetwork,
    pub bitcoin_network: BitcoinNetwork,
}

#[derive(Clone, Copy, Debug, PartialEq, Eq, Structural)]
pub struct LogConfig {
    pub ordinals_internals: bool,
    pub chainhook_internals: bool,
}

#[derive(Clone, Debug)]
pub struct StorageConfig {
    pub working_dir: String,
}

#[derive(Clone, Debug)]
pub enum PredicatesApi {
    Off,
    On(PredicatesApiConfig),
}

#[derive(Clone, Debug)]
pub struct PredicatesApiConfig {
    pub http_port: u16,
    pub database_uri: String,
    pub display_logs: bool,
}

#[derive(Clone, Debug)]
pub enum BootstrapConfig {
    Build,
    Download(String),
}

#[derive(Clone, Debug)]
pub struct PathConfig {
    pub file_path: String,
}

#[derive(Clone, Debug)]
pub struct UrlConfig {
    pub file_url: String,
}

#[derive(Clone, Copy, Debug, PartialEq, Eq, Structural)]
pub struct LimitsConfig {
    pub max_number_of_bitcoin_predicates: usize,
    pub max_number_of_concurrent_bitcoin_scans: usize,
    pub max_number_of_stacks_predicates: usize,
    pub max_number_of_concurrent_stacks_scans: usize,
    pub max_number_of_processing_threads: usize,
    pub bitcoin_concurrent_http_requests_max: usize,
    pub max_caching_memory_size_mb: usize,
}

#[derive(Clone, Debug)]
pub struct Config {
    pub storage: StorageConfig,
    pub http_api: PredicatesApi,
    pub limits: LimitsConfig,
    pub network: IndexerConfig,
    pub bootstrap: BootstrapConfig,
    pub logs: LogConfig,
}

/// The runtime bounds of the indexer, derived once from a `Config`.
#[derive(Clone, Debug)]
pub struct OrdhookConfig {
    pub network_thread_max: usize,
    pub ingestion_thread_max: usize,
    pub ingestion_thread_queue_size: usize,
    pub cache_size: usize,
    pub db_path: String,
    pub first_inscription_height: u64,
    pub logs: LogConfig,
}

/// The settings of the chain observer, which feeds blocks and lifecycle events
/// to the service.
#[derive(Debug)]
pub struct EventObserverConfig {
    pub bitcoin_rpc_proxy_enabled: bool,
    pub chainhook_config: Option<ChainhookConfig>,
    pub ingestion_port: u16,
    pub bitcoind_rpc_username: String,
    pub bitcoind_rpc_password: String,
    pub bitcoind_rpc_url: String,
    pub bitcoin_block_signaling: BitcoinBlockSignaling,
    pub display_logs: bool,
    pub cache_path: String,
    pub bitcoin_network: BitcoinNetwork,
    pub stacks_network: StacksNetwork,
}

/// The `[network]` table of a configuration file.
#[derive(Clone, Debug)]
pub struct NetworkConfigFile {
    pub mode: String,
    pub bitcoind_rpc_url: String,
    pub bitcoind_rpc_username: String,
    pub bitcoind_rpc_password: String,
    pub bitcoind_zmq_url: Option<String>,
    pub stacks_events_ingestion_port: Option<u16>,
}

/// The `[storage]` table of a configuration file.
#[derive(Clone, Debug)]
pub struct StorageConfigFile {
    pub working_dir: Option<String>,
}

/// The `[http_api]` table of a configuration file.
#[derive(Clone, Debug)]
pub struct PredicatesApiConfigFile {
    pub http_port: Option<u16>,
    pub database_uri: Option<String>,
    pub display_logs: Option<bool>,
    pub disabled: Option<bool>,
}

/// The `[limits]` table of a configuration file.
#[derive(Clone, Copy, Debug, PartialEq, Eq, Structural)]
pub struct LimitsConfigFile {
    pub max_number_of_bitcoin_predicates: Option<usize>,
    pub max_number_of_concurrent_bitcoin_scans: Option<usize>,
    pub max_number_of_stacks_predicates: Option<usize>,
    pub max_number_of_concurrent_stacks_scans: Option<usize>,
    pub max_number_of_processing_threads: Option<usize>,
    pub bitcoin_concurrent_http_requests_max: Option<usize>,
    pub max_caching_memory_size_mb: Option<usize>,
}

/// The `[bootstrap]` table of a configuration file.
#[derive(Clone, Debug)]
pub struct BootstrapConfigFile {
    pub download_url: Option<String>,
}

/// The `[logs]` table of a configuration file.
#[derive(Clone, Copy, Debug, PartialEq, Eq, Structural)]
pub struct LogConfigFile {
    pub ordinals_internals: Option<bool>,
    pub chainhook_internals: Option<bool>,
}

/// A configuration file, as read from disk.
#[derive(Clone, Debug)]
pub struct ConfigFile {
    pub storage: StorageConfigFile,
    pub http_api: Option<PredicatesApiConfigFile>,
    pub limits: LimitsConfigFile,
    pub network: NetworkConfigFile,
    pub bootstrap: Option<BootstrapConfigFile>,
    pub logs: Option<LogConfigFile>,
}

/// The number of worker threads used when none is configured, on a machine with
/// `cpus` logical cores: one core is left to the rest of the process.
pub open spec fn default_thread_count(cpus: nat) -> nat {
    if cpus <= 1 {
        1
    } else {
        (cpus - 1) as nat
    }
}

pub open spec fn unwrap_or_spec<T>(o: Option<T>, d: T) -> T {
    match o {
        Some(v) => v,
        None => d,
    }
}

/// The limits that a `[limits]` table stands for, on a machine with `cpus` cores.
pub open spec fn limits_spec(f: LimitsConfigFile, cpus: nat) -> LimitsConfig {
    LimitsConfig {
        max_number_of_bitcoin_predicates: unwrap_or_spec(
            f.max_number_of_bitcoin_predicates,
            BITCOIN_MAX_PREDICATE_REGISTRATION,
        ),
        max_number_of_concurrent_bitcoin_scans: unwrap_or_spec(
            f.max_number_of_concurrent_bitcoin_scans,
            BITCOIN_SCAN_THREAD_POOL_SIZE,
        ),
        max_number_of_stacks_predicates: unwrap_or_spec(
            f.max_number_of_stacks_predicates,
            STACKS_MAX_PREDICATE_REGISTRATION,
        ),
        max_number_of_concurrent_stacks_scans: unwrap_or_spec(
            f.max_number_of_concurrent_stacks_scans,
            STACKS_SCAN_THREAD_POOL_SIZE,
        ),
        max_number_of_processing_threads: unwrap_or_spec(
            f.max_number_of_processing_threads,
            default_thread_count(cpus) as usize,
        ),
        bitcoin_concurrent_http_requests_max: unwrap_or_spec(
            f.bitcoin_concurrent_http_requests_max,
            default_thread_count(cpus) as usize,
        ),
        max_caching_memory_size_mb: unwrap_or_spec(
            f.max_caching_memory_size_mb,
            DEFAULT_CACHING_MEMORY_SIZE_MB,
        ),
    }
}

/// The limits of the built-in network presets.
pub open spec fn default_limits(cpus: nat) -> LimitsConfig {
    limits_spec(
        LimitsConfigFile {
            max_number_of_bitcoin_predicates: None,
            max_number_of_concurrent_bitcoin_scans: None,
            max_number_of_stacks_predicates: None,
            max_number_of_concurrent_stacks_scans: None,
            max_number_of_processing_threads: None,
            bitcoin_concurrent_http_requests_max: None,
            max_caching_memory_size_mb: None,
        },
        cpus,
    )
}

/// The networks that a `network.mode` value selects, or `None` for an unknown mode.
pub open spec fn networks_of_mode(mode: Seq<char>) -> Option<(StacksNetwork, BitcoinNetwork)> {
    if mode == "devnet"@ {
        Some((StacksNetwork::Devnet, BitcoinNetwork::Regtest))
    } else if mode == "testnet"@ {
        Some((StacksNetwork::Testnet, BitcoinNetwork::Testnet))
    } else if mode == "mainnet"@ {
        Some((StacksNetwork::Mainnet, BitcoinNetwork::Mainnet))
    } else {
        None
    }
}

pub open spec fn first_inscription_height_of(network: BitcoinNetwork) -> u64 {
    match network {
        BitcoinNetwork::Mainnet => MAINNET_FIRST_INSCRIPTION_HEIGHT,
        BitcoinNetwork::Regtest => REGTEST_FIRST_INSCRIPTION_HEIGHT,
        BitcoinNetwork::Testnet => TESTNET_FIRST_INSCRIPTION_HEIGHT,
    }
}

/// Whether an `[http_api]` table turns the predicates API on. The API is on when
/// the table is present, unless its `disabled` key reads `false`.
pub open spec fn api_enabled_by(f: Option<PredicatesApiConfigFile>) -> bool {
    match f {
        None => false,
        Some(a) => a.disabled != Some(false),
    }
}


/// The address of the bootstrap archive of mainnet.
pub open spec fn mainnet_archive() -> Seq<char> {
    "https://archive.hiro.so/mainnet/chainhooks/hord.sqlite"@
}

/// What a configuration file says, on a machine with `cpus` cores, given that its
/// mode is known. Strings are compared by their views.
pub open spec fn config_matches_file(c: Config, f: ConfigFile, cpus: nat) -> bool {
    let (stacks_network, bitcoin_network) = networks_of_mode(f.network.mode@).unwrap();
    &&& c.network.stacks_network == stacks_network
    &&& c.network.bitcoin_network == bitcoin_network
    &&& c.network.bitcoind_rpc_url@ == f.network.bitcoind_rpc_url@
    &&& c.network.bitcoind_rpc_username@ == f.network.bitcoind_rpc_username@
    &&& c.network.bitcoind_rpc_password@ == f.network.bitcoind_rpc_password@
    &&& match f.network.bitcoind_zmq_url {
        Some(url) => c.network.bitcoin_block_signaling is ZeroMQ
            && c.network.bitcoin_block_signaling->ZeroMQ_0@ == url@,
        None => c.network.bitcoin_block_signaling == BitcoinBlockSignaling::Stacks(
            unwrap_or_spec(f.network.stacks_events_ingestion_port, DEFAULT_INGESTION_PORT),
        ),
    }
    &&& c.storage.working_dir@ == match f.storage.working_dir {
        Some(w) => w@,
        None => "ordhook"@,
    }
    &&& (c.http_api is On) == api_enabled_by(f.http_api)
    &&& c.http_api is On ==> {
        let a = f.http_api.unwrap();
        let on = c.http_api->On_0;
        &&& on.http_port == unwrap_or_spec(a.http_port, DEFAULT_CONTROL_PORT)
        &&& on.display_logs == unwrap_or_spec(a.display_logs, true)
        &&& on.database_uri@ == match a.database_uri {
            Some(u) => u@,
            None => "redis://localhost:6379/"@,
        }
    }
    &&& match f.bootstrap {
        Some(BootstrapConfigFile { download_url: Some(url) }) => c.bootstrap is Download
            && c.bootstrap->Download_0@ == url@,
        _ => c.bootstrap is Build,
    }
    &&& c.limits == limits_spec(f.limits, cpus)
    &&& c.logs.ordinals_internals == match f.logs {
        Some(l) => unwrap_or_spec(l.ordinals_internals, true),
        None => true,
    }
    &&& c.logs.chainhook_internals == match f.logs {
        Some(l) => unwrap_or_spec(l.chainhook_internals, true),
        None => true,
    }
}

fn string_or(o: Option<String>, d: &str) -> (r: String)
    ensures
        r@ == match o {
            Some(v) => v@,
            None => d@,
        },
{
    match o {
        Some(v) => v,
        None => String::from_str(d),
    }
}

fn bool_or(o: Option<bool>, d: bool) -> (r: bool)
    ensures
        r == unwrap_or_spec(o, d),
{
    match o {
        Some(v) => v,
        None => d,
    }
}

/// The networks that a `network.mode` value selects.
pub fn networks_from_mode(mode: &String) -> (r: Option<(StacksNetwork, BitcoinNetwork)>)
    ensures
        r == networks_of_mode(mode@),
{
    let devnet = String::from_str("devnet");
    let testnet = String::from_str("testnet");
    let mainnet = String::from_str("mainnet");
    if *mode == devnet {
        Some((StacksNetwork::Devnet, BitcoinNetwork::Regtest))
    } else if *mode == testnet {
        Some((StacksNetwork::Testnet, BitcoinNetwork::Testnet))
    } else if *mode == mainnet {
        Some((StacksNetwork::Mainnet, BitcoinNetwork::Mainnet))
    } else {
        None
    }
}

/// The height of the first inscription on a Bitcoin network.
pub fn first_inscription_height(network: BitcoinNetwork) -> (r: u64)
    ensures
        r == first_inscription_height_of(network),
{
    match network {
        BitcoinNetwork::Mainnet => MAINNET_FIRST_INSCRIPTION_HEIGHT,
        BitcoinNetwork::Regtest => REGTEST_FIRST_INSCRIPTION_HEIGHT,
        BitcoinNetwork::Testnet => TESTNET_FIRST_INSCRIPTION_HEIGHT,
    }
}

/// Relies on num_cpus::get: the number of logical cores, at least 1.
#[verifier::external_body]
fn logical_cpus() -> (r: usize)
    ensures
        r >= 1,
{
    num_cpus::get()
}

/// The number of worker threads used when none is configured.
pub fn default_thread_count_of(cpus: usize) -> (r: usize)
    ensures
        r as nat == default_thread_count(cpus as nat),
        r >= 1,
{
    if cpus <= 1 {
        1
    } else {
        cpus - 1
    }
}

fn unwrap_or_usize(o: Option<usize>, d: usize) -> (r: usize)
    ensures
        r == unwrap_or_spec(o, d),
{
    match o {
        Some(v) => v,
        None => d,
    }
}

/// The limits that a `[limits]` table stands for, on a machine with `cpus` cores.
pub fn limits_from_file(f: &LimitsConfigFile, cpus: usize) -> (r: LimitsConfig)
    ensures
        r == limits_spec(*f, cpus as nat),
{
    let threads = default_thread_count_of(cpus);
    LimitsConfig {
        max_number_of_bitcoin_predicates: unwrap_or_usize(
            f.max_number_of_bitcoin_predicates,
            BITCOIN_MAX_PREDICATE_REGISTRATION,
        ),
        max_number_of_concurrent_bitcoin_scans: unwrap_or_usize(
            f.max_number_of_concurrent_bitcoin_scans,
            BITCOIN_SCAN_THREAD_POOL_SIZE,
        ),
        max_number_of_stacks_predicates: unwrap_or_usize(
            f.max_number_of_stacks_predicates,
            STACKS_MAX_PREDICATE_REGISTRATION,
        ),
        max_number_of_concurrent_stacks_scans: unwrap_or_usize(
            f.max_number_of_concurrent_stacks_scans,
            STACKS_SCAN_THREAD_POOL_SIZE,
        ),
        max_number_of_processing_threads: unwrap_or_usize(
            f.max_number_of_processing_threads,
            threads,
        ),
        bitcoin_concurrent_http_requests_max: unwrap_or_usize(
            f.bitcoin_concurrent_http_requests_max,
            threads,
        ),
        max_caching_memory_size_mb: unwrap_or_usize(
            f.max_caching_memory_size_mb,
            DEFAULT_CACHING_MEMORY_SIZE_MB,
        ),
    }
}

fn preset_limits() -> (r: LimitsConfig)
    ensures
        exists|cpus: nat| 1 <= cpus <= usize::MAX && r == default_limits(cpus),
{
    let cpus = logical_cpus();
    let f = LimitsConfigFile {
        max_number_of_bitcoin_predicates: None,
        max_number_of_concurrent_bitcoin_scans: None,
        max_number_of_stacks_predicates: None,
        max_number_of_concurrent_stacks_scans: None,
        max_number_of_processing_threads: None,
        bitcoin_concurrent_http_requests_max: None,
        max_caching_memory_size_mb: None,
    };
    let r = limits_from_file(&f, cpus);
    assert(r == default_limits(cpus as nat));
    r
}

/// Whether `c` is a network preset: the given node URL and networks, the
/// default limits on some machine, no predicates API, a local Stacks node for
/// signaling, and the index in `working_dir`.
pub open spec fn is_preset(
    c: Config,
    working_dir: String,
    rpc_url: Seq<char>,
    stacks_network: StacksNetwork,
    bitcoin_network: BitcoinNetwork,
) -> bool {
    &&& c.storage.working_dir == working_dir
    &&& c.http_api is Off
    &&& exists|cpus: nat| 1 <= cpus <= usize::MAX && c.limits == default_limits(cpus)
    &&& c.network.bitcoind_rpc_url@ == rpc_url
    &&& c.network.bitcoind_rpc_username@ == "devnet"@
    &&& c.network.bitcoind_rpc_password@ == "devnet"@
    &&& c.network.bitcoin_block_signaling == BitcoinBlockSignaling::Stacks(DEFAULT_INGESTION_PORT)
    &&& c.network.stacks_network == stacks_network
    &&& c.network.bitcoin_network == bitcoin_network
    &&& c.logs == (LogConfig { ordinals_internals: true, chainhook_internals: false })
}

/// The devnet preset: a regtest node on port 18443, built from scratch.
pub open spec fn is_devnet_preset(c: Config, working_dir: String) -> bool {
    &&& is_preset(
        c,
        working_dir,
        "http://0.0.0.0:18443"@,
        StacksNetwork::Devnet,
        BitcoinNetwork::Regtest,
    )
    &&& c.bootstrap is Build
}

/// The testnet preset: a testnet node on port 18332, built from scratch.
pub open spec fn is_testnet_preset(c: Config, working_dir: String) -> bool {
    &&& is_preset(
        c,
        working_dir,
        "http://0.0.0.0:18332"@,
        StacksNetwork::Testnet,
        BitcoinNetwork::Testnet,
    )
    &&& c.bootstrap is Build
}

/// The mainnet preset: a mainnet node on port 8332, bootstrapped from the
/// public archive.
pub open spec fn is_mainnet_preset(c: Config, working_dir: String) -> bool {
    &&& is_preset(
        c,
        working_dir,
        "http://0.0.0.0:8332"@,
        StacksNetwork::Mainnet,
        BitcoinNetwork::Mainnet,
    )
    &&& c.bootstrap is Download
    &&& c.bootstrap->Download_0@ == mainnet_archive()
}

/// A network preset: the given node URL, networks and bootstrap, with the
/// default limits, no predicates API and a local Stacks node for signaling.
fn preset(
    working_dir: String,
    rpc_url: &str,
    stacks_network: StacksNetwork,
    bitcoin_network: BitcoinNetwork,
    bootstrap: BootstrapConfig,
) -> (c: Config)
    ensures
        is_preset(c, working_dir, rpc_url@, stacks_network, bitcoin_network),
        c.bootstrap == bootstrap,
{
    Config {
        storage: StorageConfig { working_dir },
        http_api: PredicatesApi::Off,
        bootstrap,
        limits: preset_limits(),
        network: IndexerConfig {
            bitcoind_rpc_url: String::from_str(rpc_url),
            bitcoind_rpc_username: String::from_str("devnet"),
            bitcoind_rpc_password: String::from_str("devnet"),
            bitcoin_block_signaling: BitcoinBlockSignaling::Stacks(DEFAULT_INGESTION_PORT),
            stacks_network,
            bitcoin_network,
        },
        logs: LogConfig { ordinals_internals: true, chainhook_internals: false },
    }
}

impl Config {

    /// Builds a configuration from a configuration file, on a machine with `cpus`
    /// logical cores. Fails exactly when the network mode is unknown.
    pub fn from_config_file_with_cpus(config_file: ConfigFile, cpus: usize) -> (r: Result<
        Config,
        String,
    >)
        ensures
            r is Err <==> networks_of_mode(config_file.network.mode@) is None,
            r is Err ==> r->Err_0@ == "network.mode not supported"@,
            r is Ok ==> config_matches_file(r->Ok_0, config_file, cpus as nat),
    {
        let (stacks_network, bitcoin_network) = match networks_from_mode(
            &config_file.network.mode,
        ) {
            Some(n) => n,
            None => {
                return Err(String::from_str("network.mode not supported"));
            },
        };
        let bootstrap = match config_file.bootstrap {
            Some(bootstrap) => match bootstrap.download_url {
                Some(url) => BootstrapConfig::Download(url),
                None => BootstrapConfig::Build,
            },
            None => BootstrapConfig::Build,
        };
        let http_api = match config_file.http_api {
            None => PredicatesApi::Off,
            Some(http_api) => match http_api.disabled {
                Some(false) => PredicatesApi::Off,
                _ => PredicatesApi::On(
                    PredicatesApiConfig {
                        http_port: match http_api.http_port {
                            Some(p) => p,
                            None => DEFAULT_CONTROL_PORT,
                        },
                        display_logs: bool_or(http_api.display_logs, true),
                        database_uri: string_or(
                            http_api.database_uri,
                            "redis://localhost:6379/",
                        ),
                    },
                ),
            },
        };
        let bitcoin_block_signaling = match config_file.network.bitcoind_zmq_url {
            Some(zmq_url) => BitcoinBlockSignaling::ZeroMQ(zmq_url),
            None => BitcoinBlockSignaling::Stacks(
                match config_file.network.stacks_events_ingestion_port {
                    Some(p) => p,
                    None => DEFAULT_INGESTION_PORT,
                },
            ),
        };
        let logs = match config_file.logs {
            Some(l) => LogConfig {
                ordinals_internals: bool_or(l.ordinals_internals, true),
                chainhook_internals: bool_or(l.chainhook_internals, true),
            },
            None => LogConfig { ordinals_internals: true, chainhook_internals: true },
        };
        let config = Config {
            storage: StorageConfig {
                working_dir: string_or(config_file.storage.working_dir, "ordhook"),
            },
            http_api,
            bootstrap,
            limits: limits_from_file(&config_file.limits, cpus),
            network: IndexerConfig {
                bitcoind_rpc_url: config_file.network.bitcoind_rpc_url,
                bitcoind_rpc_username: config_file.network.bitcoind_rpc_username,
                bitcoind_rpc_password: config_file.network.bitcoind_rpc_password,
                bitcoin_block_signaling,
                stacks_network,
                bitcoin_network,
            },
            logs,
        };
        Ok(config)
    }

    /// Builds a configuration from a configuration file. Fails exactly when the
    /// network mode is unknown; unset thread limits follow the machine's core count.
    pub fn from_config_file(config_file: ConfigFile) -> (r: Result<Config, String>)
        ensures
            r is Err <==> networks_of_mode(config_file.network.mode@) is None,
            r is Err ==> r->Err_0@ == "network.mode not supported"@,
            r is Ok ==> exists|cpus: nat|
                1 <= cpus <= usize::MAX && config_matches_file(r->Ok_0, config_file, cpus),
    {
        let cpus = logical_cpus();
        let r = Config::from_config_file_with_cpus(config_file, cpus);
        proof {
            if r is Ok {
                assert(config_matches_file(r->Ok_0, config_file, cpus as nat));
            }
        }
        r
    }

    /// The devnet preset, storing its index in `working_dir`.
    pub fn devnet_default(working_dir: String) -> (c: Config)
        ensures
            is_devnet_preset(c, working_dir),
    {
        preset(
            working_dir,
            "http://0.0.0.0:18443",
            StacksNetwork::Devnet,
            BitcoinNetwork::Regtest,
            BootstrapConfig::Build,
        )
    }

    /// The testnet preset, storing its index in `working_dir`.
    pub fn testnet_default(working_dir: String) -> (c: Config)
        ensures
            is_testnet_preset(c, working_dir),
    {
        preset(
            working_dir,
            "http://0.0.0.0:18332",
            StacksNetwork::Testnet,
            BitcoinNetwork::Testnet,
            BootstrapConfig::Build,
        )
    }

    /// The mainnet preset, storing its index in `working_dir`; it bootstraps from
    /// the public archive.
    pub fn mainnet_default(working_dir: String) -> (c: Config)
        ensures
            is_mainnet_preset(c, working_dir),
    {
        let archive = String::from_str("https://archive.hiro.so/mainnet/chainhooks/hord.sqlite");
        preset(
            working_dir,
            "http://0.0.0.0:8332",
            StacksNetwork::Mainnet,
            BitcoinNetwork::Mainnet,
            BootstrapConfig::Download(archive),
        )
    }

    /// Picks the configuration that the command-line flags ask for: exactly one
    /// network preset, or else the configuration file that was read (given as
    /// `config_file`, the result of reading it). Any other combination fails.
    pub fn default(
        devnet: bool,
        testnet: bool,
        mainnet: bool,
        config_file: Option<Result<Config, String>>,
        working_dir: String,
    ) -> (r: Result<Config, String>)
        ensures
            (devnet && !testnet && !mainnet) ==> r is Ok && is_devnet_preset(r->Ok_0, working_dir),
            (!devnet && testnet && !mainnet) ==> r is Ok && is_testnet_preset(r->Ok_0, working_dir),
            (!devnet && !testnet && mainnet) ==> r is Ok && is_mainnet_preset(r->Ok_0, working_dir),
            (!devnet && !testnet && !mainnet && config_file is Some) ==> r
                == config_file.unwrap(),
            (!devnet && !testnet && !mainnet && config_file is None) ==> r is Err
                && r->Err_0@ == "Invalid combination of arguments"@,
            (devnet as int + testnet as int + mainnet as int > 1) ==> r is Err
                && r->Err_0@ == "Invalid combination of arguments"@,
    {
        if devnet && !testnet && !mainnet {
            Ok(Config::devnet_default(working_dir))
        } else if !devnet && testnet && !mainnet {
            Ok(Config::testnet_default(working_dir))
        } else if !devnet && !testnet && mainnet {
            Ok(Config::mainnet_default(working_dir))
        } else if !devnet && !testnet && !mainnet {
            match config_file {
                Some(loaded) => loaded,
                None => Err(String::from_str("Invalid combination of arguments")),
            }
        } else {
            Err(String::from_str("Invalid combination of arguments"))
        }
    }
    pub fn is_http_api_enabled(&self) -> (r: bool)
        ensures
            r == (self.http_api is On),
    {
        match self.http_api {
            PredicatesApi::Off => false,
            PredicatesApi::On(_) => true,
        }
    }

    pub fn should_bootstrap_through_download(&self) -> (r: bool)
        ensures
            r == (self.bootstrap is Download),
    {
        match &self.bootstrap {
            BootstrapConfig::Build => false,
            BootstrapConfig::Download(_) => true,
        }
    }

    pub fn expected_api_config(&self) -> (r: &PredicatesApiConfig)
        requires
            self.http_api is On,
        ensures
            self.http_api == PredicatesApi::On(*r),
    {
        match self.http_api {
            PredicatesApi::On(ref config) => config,
            PredicatesApi::Off => {
                proof {
                    assert(false);
                }
                unreached()
            },
        }
    }

    pub fn expected_api_database_uri(&self) -> (r: &str)
        requires
            self.http_api is On,
        ensures
            r@ == self.http_api->On_0.database_uri@,
    {
        self.expected_api_config().database_uri.as_str()
    }

    /// The directory that holds the index.
    pub fn expected_cache_path(&self) -> (r: String)
        ensures
            r@ == self.storage.working_dir@,
    {
        self.storage.working_dir.clone()
    }

    fn expected_remote_ordinals_sqlite_base_url(&self) -> (r: &String)
        requires
            self.bootstrap is Download,
        ensures
            self.bootstrap == BootstrapConfig::Download(*r),
    {
        match &self.bootstrap {
            BootstrapConfig::Download(url) => url,
            BootstrapConfig::Build => {
                proof {
                    assert(false);
                }
                unreached()
            },
        }
    }

    /// The address of the checksum of the bootstrap archive.
    pub fn expected_remote_ordinals_sqlite_sha256(&self) -> (r: String)
        requires
            self.bootstrap is Download,
        ensures
            r@ == self.bootstrap->Download_0@ + ".sha256"@,
    {
        self.expected_remote_ordinals_sqlite_base_url().clone().concat(".sha256")
    }

    /// The address of the compressed bootstrap archive.
    pub fn expected_remote_ordinals_sqlite_url(&self) -> (r: String)
        requires
            self.bootstrap is Download,
        ensures
            r@ == self.bootstrap->Download_0@ + ".gz"@,
    {
        self.expected_remote_ordinals_sqlite_base_url().clone().concat(".gz")
    }

    /// The chain observer's settings: the node of this configuration, the
    /// default ingestion port, the RPC proxy on, no predicates yet.
    pub fn get_event_observer_config(&self) -> (r: EventObserverConfig)
        ensures
            r.bitcoin_rpc_proxy_enabled,
            r.chainhook_config is None,
            r.ingestion_port == DEFAULT_INGESTION_PORT,
            r.bitcoind_rpc_username == self.network.bitcoind_rpc_username,
            r.bitcoind_rpc_password == self.network.bitcoind_rpc_password,
            r.bitcoind_rpc_url == self.network.bitcoind_rpc_url,
            r.bitcoin_block_signaling == self.network.bitcoin_block_signaling,
            !r.display_logs,
            r.cache_path == self.storage.working_dir,
            r.bitcoin_network == self.network.bitcoin_network,
            r.stacks_network == self.network.stacks_network,
    {
        EventObserverConfig {
            bitcoin_rpc_proxy_enabled: true,
            chainhook_config: None,
            ingestion_port: DEFAULT_INGESTION_PORT,
            bitcoind_rpc_username: self.network.bitcoind_rpc_username.clone(),
            bitcoind_rpc_password: self.network.bitcoind_rpc_password.clone(),
            bitcoind_rpc_url: self.network.bitcoind_rpc_url.clone(),
            bitcoin_block_signaling: self.network.bitcoin_block_signaling.duplicate(),
            display_logs: false,
            cache_path: self.storage.working_dir.clone(),
            bitcoin_network: self.network.bitcoin_network,
            stacks_network: self.network.stacks_network,
        }
    }

    pub fn get_ordhook_config(&self) -> (r: OrdhookConfig)
        ensures
            r.network_thread_max == self.limits.bitcoin_concurrent_http_requests_max,
            r.ingestion_thread_max == self.limits.max_number_of_processing_threads,
            r.ingestion_thread_queue_size == INGESTION_THREAD_QUEUE_SIZE,
            r.cache_size == self.limits.max_caching_memory_size_mb,
            r.db_path@ == self.storage.working_dir@,
            r.first_inscription_height == first_inscription_height_of(
                self.network.bitcoin_network,
            ),
            r.logs == self.logs,
    {
        OrdhookConfig {
            network_thread_max: self.limits.bitcoin_concurrent_http_requests_max,
            ingestion_thread_max: self.limits.max_number_of_processing_threads,
            ingestion_thread_queue_size: INGESTION_THREAD_QUEUE_SIZE,
            cache_size: self.limits.max_caching_memory_size_mb,
            db_path: self.expected_cache_path(),
            first_inscription_height: first_inscription_height(self.network.bitcoin_network),
            logs: self.logs,
        }
    }
}

} // verus!
