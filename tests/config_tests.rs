use ordhook_cli::config::{
    default_thread_count_of, limits_from_file, networks_from_mode, BitcoinBlockSignaling,
    BitcoinNetwork, BootstrapConfig, Config, ConfigFile, LimitsConfigFile, LogConfigFile,
    NetworkConfigFile, PredicatesApi, PredicatesApiConfigFile, StacksNetwork, StorageConfigFile,
    BootstrapConfigFile,
};

fn empty_limits() -> LimitsConfigFile {
    LimitsConfigFile {
        max_number_of_bitcoin_predicates: None,
        max_number_of_concurrent_bitcoin_scans: None,
        max_number_of_stacks_predicates: None,
        max_number_of_concurrent_stacks_scans: None,
        max_number_of_processing_threads: None,
        bitcoin_concurrent_http_requests_max: None,
        max_caching_memory_size_mb: None,
    }
}

fn config_file(mode: &str) -> ConfigFile {
    ConfigFile {
        storage: StorageConfigFile { working_dir: None },
        http_api: None,
        limits: empty_limits(),
        network: NetworkConfigFile {
            mode: mode.to_string(),
            bitcoind_rpc_url: "http://localhost:8332".to_string(),
            bitcoind_rpc_username: "user".to_string(),
            bitcoind_rpc_password: "pass".to_string(),
            bitcoind_zmq_url: None,
            stacks_events_ingestion_port: None,
        },
        bootstrap: None,
        logs: None,
    }
}

#[test]
fn thread_count_leaves_one_core() {
    assert_eq!(default_thread_count_of(0), 1);
    assert_eq!(default_thread_count_of(1), 1);
    assert_eq!(default_thread_count_of(2), 1);
    assert_eq!(default_thread_count_of(8), 7);
}

#[test]
fn limits_take_defaults_and_overrides() {
    let mut f = empty_limits();
    let l = limits_from_file(&f, 4);
    assert_eq!(l.max_number_of_bitcoin_predicates, 50);
    assert_eq!(l.max_number_of_concurrent_bitcoin_scans, 10);
    assert_eq!(l.max_number_of_stacks_predicates, 50);
    assert_eq!(l.max_number_of_concurrent_stacks_scans, 10);
    assert_eq!(l.max_number_of_processing_threads, 3);
    assert_eq!(l.bitcoin_concurrent_http_requests_max, 3);
    assert_eq!(l.max_caching_memory_size_mb, 2048);
    f.max_caching_memory_size_mb = Some(512);
    f.max_number_of_processing_threads = Some(9);
    let l = limits_from_file(&f, 4);
    assert_eq!(l.max_caching_memory_size_mb, 512);
    assert_eq!(l.max_number_of_processing_threads, 9);
}

#[test]
fn modes_select_networks() {
    assert_eq!(
        networks_from_mode(&"devnet".to_string()),
        Some((StacksNetwork::Devnet, BitcoinNetwork::Regtest))
    );
    assert_eq!(
        networks_from_mode(&"testnet".to_string()),
        Some((StacksNetwork::Testnet, BitcoinNetwork::Testnet))
    );
    assert_eq!(
        networks_from_mode(&"mainnet".to_string()),
        Some((StacksNetwork::Mainnet, BitcoinNetwork::Mainnet))
    );
    assert_eq!(networks_from_mode(&"signet".to_string()), None);
}

#[test]
fn unknown_mode_is_refused() {
    let r = Config::from_config_file(config_file("regtest"));
    assert_eq!(r.err(), Some("network.mode not supported".to_string()));
}

#[test]
fn minimal_file_takes_defaults() {
    let c = Config::from_config_file_with_cpus(config_file("mainnet"), 1).unwrap();
    assert_eq!(c.storage.working_dir, "ordhook");
    assert!(!c.is_http_api_enabled());
    assert!(!c.should_bootstrap_through_download());
    assert_eq!(c.network.bitcoin_network, BitcoinNetwork::Mainnet);
    assert_eq!(c.network.stacks_network, StacksNetwork::Mainnet);
    assert_eq!(c.network.bitcoind_rpc_url, "http://localhost:8332");
    assert!(matches!(c.network.bitcoin_block_signaling, BitcoinBlockSignaling::Stacks(20455)));
    assert!(c.logs.ordinals_internals && c.logs.chainhook_internals);
    assert_eq!(c.limits.max_number_of_processing_threads, 1);
    let o = c.get_ordhook_config();
    assert_eq!(o.first_inscription_height, 767430);
    assert_eq!(o.ingestion_thread_queue_size, 4);
    assert_eq!(o.cache_size, 2048);
    assert_eq!(o.db_path, "ordhook");
}

#[test]
fn full_file_is_read() {
    let mut f = config_file("testnet");
    f.storage.working_dir = Some("/data".to_string());
    f.http_api = Some(PredicatesApiConfigFile {
        http_port: Some(3000),
        database_uri: None,
        display_logs: None,
        disabled: None,
    });
    f.network.bitcoind_zmq_url = Some("tcp://0.0.0.0:18543".to_string());
    f.bootstrap = Some(BootstrapConfigFile { download_url: Some("https://a.b/c".to_string()) });
    f.logs = Some(LogConfigFile { ordinals_internals: Some(false), chainhook_internals: None });
    let c = Config::from_config_file_with_cpus(f, 6).unwrap();
    assert_eq!(c.storage.working_dir, "/data");
    assert_eq!(c.expected_cache_path(), "/data");
    let api = c.expected_api_config();
    assert_eq!(api.http_port, 3000);
    assert!(api.display_logs);
    assert_eq!(c.expected_api_database_uri(), "redis://localhost:6379/");
    assert!(matches!(&c.network.bitcoin_block_signaling, BitcoinBlockSignaling::ZeroMQ(u) if u == "tcp://0.0.0.0:18543"));
    assert_eq!(c.expected_remote_ordinals_sqlite_url(), "https://a.b/c.gz");
    assert_eq!(c.expected_remote_ordinals_sqlite_sha256(), "https://a.b/c.sha256");
    assert!(!c.logs.ordinals_internals);
    assert!(c.logs.chainhook_internals);
    assert_eq!(c.limits.bitcoin_concurrent_http_requests_max, 5);
    assert_eq!(c.get_ordhook_config().first_inscription_height, 2413343);
}

#[test]
fn api_table_with_disabled_false_turns_api_off() {
    let mut f = config_file("devnet");
    f.http_api = Some(PredicatesApiConfigFile {
        http_port: None,
        database_uri: None,
        display_logs: None,
        disabled: Some(false),
    });
    let c = Config::from_config_file_with_cpus(f, 2).unwrap();
    assert!(matches!(c.http_api, PredicatesApi::Off));
    assert_eq!(c.get_ordhook_config().first_inscription_height, 1);
}

#[test]
fn presets_follow_flags() {
    let d = Config::default(true, false, false, None, "/w".to_string()).unwrap();
    assert_eq!(d.network.bitcoin_network, BitcoinNetwork::Regtest);
    assert_eq!(d.network.bitcoind_rpc_url, "http://0.0.0.0:18443");
    assert!(!d.logs.chainhook_internals);
    let t = Config::default(false, true, false, None, "/w".to_string()).unwrap();
    assert_eq!(t.network.bitcoind_rpc_url, "http://0.0.0.0:18332");
    let m = Config::default(false, false, true, None, "/w".to_string()).unwrap();
    assert_eq!(m.network.bitcoind_rpc_url, "http://0.0.0.0:8332");
    assert!(matches!(&m.bootstrap, BootstrapConfig::Download(u) if u == "https://archive.hiro.so/mainnet/chainhooks/hord.sqlite"));
    assert_eq!(
        m.expected_remote_ordinals_sqlite_url(),
        "https://archive.hiro.so/mainnet/chainhooks/hord.sqlite.gz"
    );
    assert!(m.limits.max_number_of_processing_threads >= 1);
    assert_eq!(m.storage.working_dir, "/w");
}

#[test]
fn invalid_flag_combinations_fail() {
    assert_eq!(
        Config::default(true, true, false, None, "/w".to_string()).err(),
        Some("Invalid combination of arguments".to_string())
    );
    assert_eq!(
        Config::default(false, false, false, None, "/w".to_string()).err(),
        Some("Invalid combination of arguments".to_string())
    );
    let loaded = Config::from_config_file_with_cpus(config_file("devnet"), 2);
    let r = Config::default(false, false, false, Some(loaded), "/w".to_string()).unwrap();
    assert_eq!(r.storage.working_dir, "ordhook");
}
