use ordhook_cli::config::{
    BitcoinNetwork, Config, PredicatesApi, PredicatesApiConfig, StacksNetwork,
};
use ordhook_cli::predicates::{
    ChainhookConfig, ChainhookFullSpecification, ChainhookSpecification, PredicateSpecification,
};
use ordhook_cli::preprocessor::{plan_command, CommandRun, HandleBlock, IndexAction};
use ordhook_cli::service::{
    create_and_consolidate_chainhook_config_with_predicates, lifecycle_reaction,
    BlockProcessor, ObserverEvent, PipelineRequest, PredicateStatus, Service, StateSync,
    StoreOperation, SyncStep,
};

fn spec(uuid: &str) -> PredicateSpecification {
    PredicateSpecification { uuid: uuid.to_string(), name: format!("{uuid}-name"), enabled: true }
}

fn with_api(on: bool) -> Config {
    let mut c = Config::devnet_default("/tmp/w".to_string());
    if on {
        c.http_api = PredicatesApi::On(PredicatesApiConfig {
            http_port: 20456,
            database_uri: "redis://localhost:6379/".to_string(),
            display_logs: false,
        });
    }
    c
}

/// Runs a command to the end, failing the actions that `fails` picks.
fn run(command: HandleBlock, opened: bool, fails: impl Fn(IndexAction) -> bool) -> (Vec<IndexAction>, CommandRun) {
    let mut r = CommandRun::start(command, opened);
    let mut done = vec![];
    while let Some(a) = r.next_action() {
        done.push(a);
        r.report(!fails(a));
    }
    assert!(r.is_done());
    (done, r)
}

#[test]
fn launch_predicates_consolidate_and_only_bitcoin_is_scanned() {
    let config = with_api(false);
    let launch = vec![
        ChainhookFullSpecification::Bitcoin {
            uuid: "A".to_string(),
            name: "a".to_string(),
            networks: vec![BitcoinNetwork::Regtest],
        },
        ChainhookFullSpecification::Stacks {
            uuid: "B".to_string(),
            name: "b".to_string(),
            networks: vec![StacksNetwork::Devnet],
        },
    ];
    let registry = create_and_consolidate_chainhook_config_with_predicates(launch, &config, Ok(vec![]));
    assert_eq!(registry.bitcoin_chainhooks.len(), 1);
    assert_eq!(registry.stacks_chainhooks.len(), 1);
    assert_eq!(registry.bitcoin_chainhooks[0].uuid, "A");
    assert_eq!(registry.stacks_chainhooks[0].uuid, "B");
    let service = Service::new(config);
    let mut scanned = vec![];
    for p in registry.bitcoin_chainhooks.iter() {
        let r = service.handle_observer_event(ObserverEvent::PredicateRegistered(
            ChainhookSpecification::Bitcoin(p.duplicate()),
        ));
        assert!(r.store_operations.is_empty());
        scanned.extend(r.scan);
    }
    for p in registry.stacks_chainhooks.iter() {
        let r = service.handle_observer_event(ObserverEvent::PredicateRegistered(
            ChainhookSpecification::Stacks(p.duplicate()),
        ));
        scanned.extend(r.scan);
    }
    assert_eq!(scanned.len(), 1);
    assert_eq!(scanned[0].uuid, "A");
}

#[test]
fn predicate_on_other_network_is_dropped() {
    let config = with_api(false);
    let launch = vec![ChainhookFullSpecification::Bitcoin {
        uuid: "A".to_string(),
        name: "a".to_string(),
        networks: vec![BitcoinNetwork::Mainnet],
    }];
    let registry = create_and_consolidate_chainhook_config_with_predicates(launch, &config, Ok(vec![]));
    assert!(registry.bitcoin_chainhooks.is_empty());
    let mut c = ChainhookConfig::new();
    let r = c.register_full_specification(
        (BitcoinNetwork::Regtest, StacksNetwork::Devnet),
        ChainhookFullSpecification::Stacks {
            uuid: "S".to_string(),
            name: "s".to_string(),
            networks: vec![StacksNetwork::Mainnet],
        },
    );
    assert!(r.is_err());
    assert!(c.stacks_chainhooks.is_empty());
}

#[test]
fn persisted_predicates_load_only_without_launch_predicates() {
    let config = with_api(true);
    let persisted = vec![
        (ChainhookSpecification::Bitcoin(spec("P")), PredicateStatus::Disabled),
        (ChainhookSpecification::Stacks(spec("Q")), PredicateStatus::InitialScanCompleted),
    ];
    let registry = create_and_consolidate_chainhook_config_with_predicates(vec![], &config, Ok(persisted));
    assert_eq!(registry.bitcoin_chainhooks[0].uuid, "P");
    assert_eq!(registry.stacks_chainhooks[0].uuid, "Q");
    let failed = create_and_consolidate_chainhook_config_with_predicates(vec![], &config, Err("down".to_string()));
    assert!(failed.bitcoin_chainhooks.is_empty() && failed.stacks_chainhooks.is_empty());
    let off = create_and_consolidate_chainhook_config_with_predicates(
        vec![],
        &with_api(false),
        Ok(vec![(ChainhookSpecification::Bitcoin(spec("P")), PredicateStatus::Disabled)]),
    );
    assert!(off.bitcoin_chainhooks.is_empty());
}

#[test]
fn duplicate_uuid_last_registration_wins() {
    let mut c = ChainhookConfig::new();
    c.register_specification(ChainhookSpecification::Bitcoin(spec("X")));
    let mut second = spec("X");
    second.name = "second".to_string();
    c.register_specification(ChainhookSpecification::Bitcoin(second));
    c.register_specification(ChainhookSpecification::Bitcoin(spec("Y")));
    assert_eq!(c.bitcoin_chainhooks.len(), 2);
    assert_eq!(c.bitcoin_chainhooks[0].name, "second");
    let replay = c.bitcoin_predicates_for_replay();
    assert_eq!(replay.len(), 2);
    assert!(replay.iter().all(|p| !p.enabled));
    assert_eq!(replay[1].uuid, "Y");
}

#[test]
fn bitcoin_registration_is_dispatched_once() {
    let r = lifecycle_reaction(true, ObserverEvent::PredicateRegistered(ChainhookSpecification::Bitcoin(spec("A"))));
    assert_eq!(r.scan.map(|p| p.uuid), Some("A".to_string()));
    assert!(!r.terminate);
    assert_eq!(r.store_operations.len(), 2);
    match &r.store_operations[0] {
        StoreOperation::SetSpecification { key, spec } => {
            assert_eq!(key, "predicate:A");
            assert!(matches!(spec, ChainhookSpecification::Bitcoin(p) if p.uuid == "A"));
        }
        other => panic!("unexpected {other:?}"),
    }
    assert!(matches!(&r.store_operations[1], StoreOperation::SetStatus { key, status: PredicateStatus::Disabled } if key == "predicate:A"));
    let stacks = lifecycle_reaction(true, ObserverEvent::PredicateRegistered(ChainhookSpecification::Stacks(spec("B"))));
    assert!(stacks.scan.is_none());
    let off = lifecycle_reaction(false, ObserverEvent::PredicateRegistered(ChainhookSpecification::Bitcoin(spec("C"))));
    assert!(off.store_operations.is_empty());
    assert_eq!(off.scan.map(|p| p.uuid), Some("C".to_string()));
}

#[test]
fn enabling_records_initial_scan_completed() {
    let r = lifecycle_reaction(true, ObserverEvent::PredicateEnabled(ChainhookSpecification::Stacks(spec("E"))));
    assert!(r.scan.is_none());
    assert!(matches!(&r.store_operations[1], StoreOperation::SetStatus { key, status: PredicateStatus::InitialScanCompleted } if key == "predicate:E"));
}

#[test]
fn deregistration_deletes_the_record() {
    let r = lifecycle_reaction(true, ObserverEvent::PredicateDeregistered(ChainhookSpecification::Bitcoin(spec("D"))));
    assert_eq!(r.store_operations.len(), 1);
    assert!(matches!(&r.store_operations[0], StoreOperation::Delete { key } if key == "predicate:D"));
    assert!(r.scan.is_none());
}

#[test]
fn reregistration_writes_both_fields_again() {
    let first = lifecycle_reaction(true, ObserverEvent::PredicateRegistered(ChainhookSpecification::Bitcoin(spec("R"))));
    let mut s = spec("R");
    s.name = "renamed".to_string();
    let second = lifecycle_reaction(true, ObserverEvent::PredicateRegistered(ChainhookSpecification::Bitcoin(s)));
    assert_eq!(first.store_operations.len(), 2);
    assert_eq!(second.store_operations.len(), 2);
    assert!(matches!(&second.store_operations[0], StoreOperation::SetSpecification { key, spec: ChainhookSpecification::Bitcoin(p) } if key == "predicate:R" && p.name == "renamed"));
    assert!(matches!(&second.store_operations[1], StoreOperation::SetStatus { key, status: PredicateStatus::Disabled } if key == "predicate:R"));
}

#[test]
fn terminate_and_other_events() {
    let t = lifecycle_reaction(true, ObserverEvent::Terminate);
    assert!(t.terminate && t.store_operations.is_empty() && t.scan.is_none());
    let o = lifecycle_reaction(true, ObserverEvent::Other);
    assert!(!o.terminate && o.store_operations.is_empty() && o.scan.is_none());
}

#[test]
fn update_state_runs_one_pipeline_then_stops() {
    let service = Service::new(with_api(false));
    let mut sync = StateSync::new();
    let step = service.update_state(&mut sync, Ok(Some((100, 105, 5))));
    match step {
        SyncStep::Pipeline(req) => assert_eq!(
            req,
            PipelineRequest {
                processor: BlockProcessor::InscriptionIndexing,
                start_block: 100,
                end_block: 105,
                first_inscription_height: 1,
                speed: 5
            }
        ),
        other => panic!("unexpected {other:?}"),
    }
    assert_eq!(sync.workers_started, 1);
    assert_eq!(sync.pipeline_finished(Ok(())), None);
    let step = service.update_state(&mut sync, Ok(None));
    assert!(matches!(step, SyncStep::CaughtUp));
    assert!(sync.finished);
    assert_eq!(sync.workers_started, 1);
    assert_eq!(sync.pipeline_runs, 1);
}

#[test]
fn update_state_propagates_errors() {
    let service = Service::new(with_api(false));
    let mut sync = StateSync::new();
    assert!(matches!(service.update_state(&mut sync, Err("rpc".to_string())), SyncStep::Failed(e) if e == "rpc"));
    assert!(sync.finished);
    let mut sync = StateSync::new();
    let _ = service.update_state(&mut sync, Ok(Some((1, 2, 3))));
    assert_eq!(sync.pipeline_finished(Err("pipe".to_string())), Some("pipe".to_string()));
    assert!(sync.finished);
    assert_eq!(sync.pipeline_runs, 0);
}

#[test]
fn replay_transfers_uses_recomputing_processor() {
    let service = Service::new(with_api(false));
    let r = service.replay_transfers(7, 9);
    assert_eq!(r.processor, BlockProcessor::TransfersRecomputing);
    assert_eq!((r.start_block, r.end_block, r.speed), (7, 9, 100));
    assert_eq!(r.first_inscription_height, 1);
    let mainnet = Service::new(Config::mainnet_default("/tmp/w".to_string()));
    assert_eq!(mainnet.replay_transfers(7, 9).first_inscription_height, 767430);
    let mut sync = StateSync::new();
    match mainnet.update_state(&mut sync, Ok(Some((800000, 800010, 3)))) {
        SyncStep::Pipeline(req) => assert_eq!(req.first_inscription_height, 767430),
        other => panic!("unexpected {other:?}"),
    }
}

#[test]
fn same_uuid_in_other_scope_replaces_the_predicate() {
    let mut c = ChainhookConfig::new();
    c.register_specification(ChainhookSpecification::Bitcoin(spec("U")));
    c.register_specification(ChainhookSpecification::Stacks(spec("V")));
    c.register_specification(ChainhookSpecification::Stacks(spec("U")));
    assert!(c.bitcoin_chainhooks.is_empty());
    assert_eq!(c.stacks_chainhooks.len(), 2);
    assert_eq!(c.stacks_chainhooks[0].uuid, "V");
    assert_eq!(c.stacks_chainhooks[1].uuid, "U");
    let config = with_api(false);
    let launch = vec![
        ChainhookFullSpecification::Stacks {
            uuid: "W".to_string(),
            name: "stacks".to_string(),
            networks: vec![StacksNetwork::Devnet],
        },
        ChainhookFullSpecification::Bitcoin {
            uuid: "W".to_string(),
            name: "bitcoin".to_string(),
            networks: vec![BitcoinNetwork::Regtest],
        },
    ];
    let registry = create_and_consolidate_chainhook_config_with_predicates(launch, &config, Ok(vec![]));
    assert!(registry.stacks_chainhooks.is_empty());
    assert_eq!(registry.bitcoin_chainhooks.len(), 1);
    assert_eq!(registry.bitcoin_chainhooks[0].name, "bitcoin");
}

#[test]
fn failed_compression_skips_storage_but_not_extraction() {
    let (done, r) = run(HandleBlock::ApplyBlocks(vec![10]), true, |a| a == IndexAction::PersistRawBlock(10));
    assert!(r.stored_heights().is_empty());
    assert_eq!(r.acknowledgment(), &vec![10]);
    assert!(done.contains(&IndexAction::ExtractInscriptions(10)));
    assert_eq!(
        done,
        vec![
            IndexAction::PersistRawBlock(10),
            IndexAction::ExtractInscriptions(10),
            IndexAction::SequenceBatch,
            IndexAction::ForwardBatch
        ]
    );
}

#[test]
fn applied_blocks_are_stored_in_order() {
    let (_, r) = run(HandleBlock::ApplyBlocks(vec![5, 6, 7]), true, |a| a == IndexAction::PersistRawBlock(6));
    assert_eq!(r.stored_heights(), &vec![5, 7]);
    assert_eq!(r.acknowledgment(), &vec![5, 6, 7]);
}

#[test]
fn undo_attempts_every_block_despite_failures() {
    let (done, r) = run(HandleBlock::UndoBlocks(vec![12, 11, 10]), true, |a| a == IndexAction::RollbackBlock(12));
    assert_eq!(
        done,
        vec![
            IndexAction::RollbackBlock(12),
            IndexAction::RollbackBlock(11),
            IndexAction::RollbackBlock(10),
            IndexAction::ForwardBatch
        ]
    );
    assert_eq!(r.acknowledgment(), &vec![12, 11, 10]);
}

#[test]
fn every_command_is_acknowledged_once() {
    let commands = vec![
        (HandleBlock::ApplyBlocks(vec![1, 2]), true),
        (HandleBlock::UndoBlocks(vec![2]), false),
        (HandleBlock::UndoBlocks(vec![]), true),
        (HandleBlock::ApplyBlocks(vec![]), true),
    ];
    let n = commands.len();
    let mut acks = 0;
    for (c, opened) in commands {
        let plan = plan_command(&c, opened);
        acks += plan.iter().filter(|a| **a == IndexAction::ForwardBatch).count();
        let (_, r) = run(c, opened, |_| true);
        assert!(r.stored_heights().is_empty());
    }
    assert_eq!(acks, n);
}

#[test]
fn unopened_index_only_forwards() {
    let plan = plan_command(&HandleBlock::ApplyBlocks(vec![3, 4]), false);
    assert_eq!(plan, vec![IndexAction::ForwardBatch]);
}
