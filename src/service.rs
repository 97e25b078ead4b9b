use vstd::prelude::*;

use vstd::string::StringExecFns;

use crate::config::{first_inscription_height, first_inscription_height_of, Config};
use crate::predicates::{
    register_all, register_all_full, ChainhookConfig, ChainhookFullSpecification,
    ChainhookSpecification, PredicateSpecification, RegistryModel, predicate_key, spec_of,
};

verus! {

#[derive(Clone, Copy, Debug, PartialEq, Eq, Structural)]
pub struct ScanningData {
    pub number_of_blocks_to_scan: u64,
    pub number_of_blocks_scanned: u64,
    pub number_of_blocks_sent: u64,
    pub current_block_height: u64,
}

#[derive(Clone, Copy, Debug, PartialEq, Eq, Structural)]
pub struct StreamingData {
    pub last_occurence: u64,
    pub last_evaluation: u64,
}

/// Where a predicate stands in its life.
#[derive(Clone, Debug)]
pub enum PredicateStatus {
    Scanning(ScanningData),
    Streaming(StreamingData),
    InitialScanCompleted,
    Interrupted(String),
    Disabled,
}

/// The persisted predicates that consolidation registers: those of the store,
/// when none was supplied at launch and the predicates API is on, and a failed
/// load counts as none.
pub open spec fn persisted_to_load(
    n_launch: nat,
    api_enabled: bool,
    persisted: Result<Seq<(ChainhookSpecification, PredicateStatus)>, String>,
) -> Seq<ChainhookSpecification> {
    if n_launch == 0 && api_enabled && persisted is Ok {
        persisted->Ok_0.map_values(|e: (ChainhookSpecification, PredicateStatus)| e.0)
    } else {
        Seq::empty()
    }
}

/// The consolidated registry: the persisted predicates to load, then the
/// launch-supplied ones that run on the configured networks.
pub open spec fn consolidated(
    launch: Seq<ChainhookFullSpecification>,
    config: Config,
    persisted: Result<Seq<(ChainhookSpecification, PredicateStatus)>, String>,
) -> RegistryModel {
    register_all_full(
        register_all(
            (Seq::empty(), Seq::empty()),
            persisted_to_load(launch.len(), config.http_api is On, persisted),
        ),
        launch,
        config.network.bitcoin_network,
        config.network.stacks_network,
    )
}

pub open spec fn persisted_view(
    persisted: Result<Vec<(ChainhookSpecification, PredicateStatus)>, String>,
) -> Result<Seq<(ChainhookSpecification, PredicateStatus)>, String> {
    match persisted {
        Ok(v) => Ok(v@),
        Err(e) => Err(e),
    }
}

/// Builds the registry of active predicates from those supplied at launch and,
/// when none was and the predicates API is on, those read from the store
/// (`persisted`, the result of that read). A predicate that does not run on the
/// configured networks is left out; of two with the same uuid the later wins.
pub fn create_and_consolidate_chainhook_config_with_predicates(
    predicates: Vec<ChainhookFullSpecification>,
    config: &Config,
    persisted: Result<Vec<(ChainhookSpecification, PredicateStatus)>, String>,
) -> (r: ChainhookConfig)
    ensures
        r.wf(),
        r.model() == consolidated(predicates@, *config, persisted_view(persisted)),
{
    let mut chainhook_config = ChainhookConfig::new();
    let ghost loaded = persisted_to_load(
        predicates@.len(),
        config.http_api is On,
        persisted_view(persisted),
    );
    if predicates.len() == 0 && config.is_http_api_enabled() {
        match persisted {
            Ok(mut registered_predicates) => {
                let ghost all = registered_predicates@;
                let total = registered_predicates.len();
                assert(loaded == all.map_values(
                    |e: (ChainhookSpecification, PredicateStatus)| e.0,
                ));
                let mut k: usize = 0;
                while registered_predicates.len() > 0
                    invariant
                        0 <= k <= all.len(),
                        all.len() == total,
                        registered_predicates@ == all.subrange(k as int, all.len() as int),
                        loaded == all.map_values(
                            |e: (ChainhookSpecification, PredicateStatus)| e.0,
                        ),
                        chainhook_config.wf(),
                        chainhook_config.model() == register_all(
                            (Seq::empty(), Seq::empty()),
                            loaded.take(k as int),
                        ),
                    decreases registered_predicates@.len(),
                {
                    let (predicate, _status) = registered_predicates.remove(0);
                    proof {
                        assert(loaded.take(k + 1).drop_last() =~= loaded.take(k as int));
                        assert(loaded.take(k + 1).last() == predicate);
                    }
                    chainhook_config.register_specification(predicate);
                    k = k + 1;
                }
                assert(loaded.take(k as int) =~= loaded);
            },
            Err(_) => {},
        }
    } else {
        assert(loaded.take(0) =~= loaded);
    }
    let ghost base = chainhook_config.model();
    let ghost launch = predicates@;
    let mut predicates = predicates;
    let total = predicates.len();
    let mut k: usize = 0;
    while predicates.len() > 0
        invariant
            0 <= k <= launch.len(),
            launch.len() == total,
            predicates@ == launch.subrange(k as int, launch.len() as int),
            chainhook_config.wf(),
            chainhook_config.model() == register_all_full(
                base,
                launch.take(k as int),
                config.network.bitcoin_network,
                config.network.stacks_network,
            ),
        decreases predicates@.len(),
    {
        let predicate = predicates.remove(0);
        proof {
            assert(launch.take(k + 1).drop_last() =~= launch.take(k as int));
            assert(launch.take(k + 1).last() == predicate);
        }
        let _ = chainhook_config.register_full_specification(
            (config.network.bitcoin_network, config.network.stacks_network),
            predicate,
        );
        k = k + 1;
    }
    assert(launch.take(k as int) =~= launch);
    chainhook_config
}

/// An event of the predicate lifecycle, as the chain observer reports it.
#[derive(Debug)]
pub enum ObserverEvent {
    PredicateRegistered(ChainhookSpecification),
    PredicateEnabled(ChainhookSpecification),
    PredicateDeregistered(ChainhookSpecification),
    Terminate,
    /// Any other kind of event; it calls for nothing.
    Other,
}

/// One write to the predicate store, whose records are keyed by predicate key
/// and hold a `status` and a `specification` field.
#[derive(Debug)]
pub enum StoreOperation {
    SetSpecification { key: String, spec: ChainhookSpecification },
    SetStatus { key: String, status: PredicateStatus },
    Delete { key: String },
}

/// What the service does in answer to one lifecycle event: the writes to the
/// store, in order, the predicate to hand to the scan workers, and whether the
/// event loop ends.
#[derive(Debug)]
pub struct LifecycleReaction {
    pub store_operations: Vec<StoreOperation>,
    pub scan: Option<PredicateSpecification>,
    pub terminate: bool,
}

/// A model of the predicate store: for each key, its `status` and
/// `specification` fields, either of which may be unset.
pub type StoreModel = Map<Seq<char>, (Option<PredicateStatus>, Option<ChainhookSpecification>)>;

pub open spec fn record_of(store: StoreModel, key: Seq<char>) -> (
    Option<PredicateStatus>,
    Option<ChainhookSpecification>,
) {
    if store.contains_key(key) {
        store[key]
    } else {
        (None, None)
    }
}

/// The store after one write: setting a field keeps the record's other field;
/// a deletion removes the whole record.
pub open spec fn apply_operation(store: StoreModel, op: StoreOperation) -> StoreModel {
    match op {
        StoreOperation::SetSpecification { key, spec } => store.insert(
            key@,
            (record_of(store, key@).0, Some(spec)),
        ),
        StoreOperation::SetStatus { key, status } => store.insert(
            key@,
            (Some(status), record_of(store, key@).1),
        ),
        StoreOperation::Delete { key } => store.remove(key@),
    }
}

pub open spec fn apply_operations(store: StoreModel, ops: Seq<StoreOperation>) -> StoreModel
    decreases ops.len(),
{
    if ops.len() == 0 {
        store
    } else {
        apply_operation(apply_operations(store, ops.drop_last()), ops.last())
    }
}

/// The status that a lookup of `key` finds, if any.
pub open spec fn status_lookup(store: StoreModel, key: Seq<char>) -> Option<PredicateStatus> {
    record_of(store, key).0
}

/// The writes that record `s` with the given status.
pub open spec fn upsert_operations(
    ops: Seq<StoreOperation>,
    s: ChainhookSpecification,
    status: PredicateStatus,
) -> bool {
    &&& ops.len() == 2
    &&& ops[0] is SetSpecification
    &&& ops[0]->SetSpecification_key@ == predicate_key(spec_of(s).uuid@)
    &&& ops[0]->SetSpecification_spec == s
    &&& ops[1] is SetStatus
    &&& ops[1]->SetStatus_key@ == predicate_key(spec_of(s).uuid@)
    &&& ops[1]->SetStatus_status == status
}

/// The store writes that answer `event`; with the predicates API off there are none.
pub open spec fn reaction_operations(
    ops: Seq<StoreOperation>,
    api_enabled: bool,
    event: ObserverEvent,
) -> bool {
    if !api_enabled {
        ops.len() == 0
    } else {
        match event {
            ObserverEvent::PredicateRegistered(s) => upsert_operations(
                ops,
                s,
                PredicateStatus::Disabled,
            ),
            ObserverEvent::PredicateEnabled(s) => upsert_operations(
                ops,
                s,
                PredicateStatus::InitialScanCompleted,
            ),
            ObserverEvent::PredicateDeregistered(s) => ops.len() == 1 && ops[0] is Delete
                && ops[0]->Delete_key@ == predicate_key(spec_of(s).uuid@),
            _ => ops.len() == 0,
        }
    }
}

/// The predicate that `event` hands to the scan workers: a newly registered
/// Bitcoin predicate, and nothing else.
pub open spec fn scan_of(event: ObserverEvent) -> Option<PredicateSpecification> {
    match event {
        ObserverEvent::PredicateRegistered(ChainhookSpecification::Bitcoin(p)) => Some(p),
        _ => None,
    }
}

fn upsert(s: &ChainhookSpecification, status: PredicateStatus) -> (ops: Vec<StoreOperation>)
    ensures
        upsert_operations(ops@, *s, status),
{
    let mut ops: Vec<StoreOperation> = Vec::new();
    ops.push(StoreOperation::SetSpecification { key: s.key(), spec: s.duplicate() });
    ops.push(StoreOperation::SetStatus { key: s.key(), status });
    ops
}

/// Decides what answers a lifecycle event. The scan hand-off does not depend
/// on the store: it happens whether or not the writes succeed.
pub fn lifecycle_reaction(api_enabled: bool, event: ObserverEvent) -> (r: LifecycleReaction)
    ensures
        reaction_operations(r.store_operations@, api_enabled, event),
        r.scan == scan_of(event),
        r.terminate == (event is Terminate),
{
    let mut store_operations: Vec<StoreOperation> = Vec::new();
    match event {
        ObserverEvent::PredicateRegistered(spec) => {
            if api_enabled {
                store_operations = upsert(&spec, PredicateStatus::Disabled);
            }
            let scan = match spec {
                ChainhookSpecification::Stacks(_) => None,
                ChainhookSpecification::Bitcoin(p) => Some(p),
            };
            LifecycleReaction { store_operations, scan, terminate: false }
        },
        ObserverEvent::PredicateEnabled(spec) => {
            if api_enabled {
                store_operations = upsert(&spec, PredicateStatus::InitialScanCompleted);
            }
            LifecycleReaction { store_operations, scan: None, terminate: false }
        },
        ObserverEvent::PredicateDeregistered(spec) => {
            if api_enabled {
                store_operations.push(StoreOperation::Delete { key: spec.key() });
            }
            LifecycleReaction { store_operations, scan: None, terminate: false }
        },
        ObserverEvent::Terminate => LifecycleReaction {
            store_operations,
            scan: None,
            terminate: true,
        },
        ObserverEvent::Other => LifecycleReaction { store_operations, scan: None, terminate: false },
    }
}

/// Registering a Bitcoin predicate hands it to the scan workers exactly once,
/// whatever becomes of the store writes; a Stacks predicate is not handed over.
pub proof fn lemma_registration_dispatch(api_enabled: bool, s: ChainhookSpecification)
    ensures
        scan_of(ObserverEvent::PredicateRegistered(s)) == match s {
            ChainhookSpecification::Bitcoin(p) => Some(p),
            ChainhookSpecification::Stacks(_) => None::<PredicateSpecification>,
        },
{
}

/// After the writes that answer a deregistration, a status lookup of the
/// predicate's key finds nothing.
pub proof fn lemma_deregistration_removes(
    store: StoreModel,
    s: ChainhookSpecification,
    ops: Seq<StoreOperation>,
)
    requires
        reaction_operations(ops, true, ObserverEvent::PredicateDeregistered(s)),
    ensures
        status_lookup(apply_operations(store, ops), predicate_key(spec_of(s).uuid@)) is None,
        !apply_operations(store, ops).contains_key(predicate_key(spec_of(s).uuid@)),
{
    assert(ops.drop_last().len() == 0);
}

/// Registering a predicate with the API on leaves exactly its specification and
/// the `Disabled` status under its key, whatever the record held before, and
/// touches no other key.
pub proof fn lemma_registration_record(
    store: StoreModel,
    s: ChainhookSpecification,
    ops: Seq<StoreOperation>,
)
    requires
        reaction_operations(ops, true, ObserverEvent::PredicateRegistered(s)),
    ensures
        apply_operations(store, ops) == store.insert(
            predicate_key(spec_of(s).uuid@),
            (Some(PredicateStatus::Disabled), Some(s)),
        ),
{
    let key = predicate_key(spec_of(s).uuid@);
    let o1 = ops.drop_last();
    assert(o1.last() == ops[0]);
    assert(o1.drop_last().len() == 0);
    assert(apply_operations(store, o1.drop_last()) == store);
    let m1 = apply_operations(store, o1);
    assert(m1 == apply_operation(store, ops[0]));
    assert(m1 == store.insert(key, (record_of(store, key).0, Some(s))));
    let m2 = apply_operations(store, ops);
    assert(m2 == apply_operation(m1, ops[1]));
    assert(m2 =~= store.insert(key, (Some(PredicateStatus::Disabled), Some(s))));
}

/// Registering again under the same uuid overwrites both fields: the record
/// then holds the second specification and the `Disabled` status, and nothing
/// of the first.
pub proof fn lemma_reregistration_overwrites(
    store: StoreModel,
    s1: ChainhookSpecification,
    ops1: Seq<StoreOperation>,
    s2: ChainhookSpecification,
    ops2: Seq<StoreOperation>,
)
    requires
        reaction_operations(ops1, true, ObserverEvent::PredicateRegistered(s1)),
        reaction_operations(ops2, true, ObserverEvent::PredicateRegistered(s2)),
        spec_of(s1).uuid@ == spec_of(s2).uuid@,
    ensures
        apply_operations(apply_operations(store, ops1), ops2)[predicate_key(spec_of(s2).uuid@)]
            == (Some(PredicateStatus::Disabled), Some(s2)),
        apply_operations(apply_operations(store, ops1), ops2) == apply_operations(store, ops2),
{
    lemma_registration_record(store, s1, ops1);
    lemma_registration_record(apply_operations(store, ops1), s2, ops2);
    lemma_registration_record(store, s2, ops2);
    let key = predicate_key(spec_of(s2).uuid@);
    let v1 = (Some(PredicateStatus::Disabled), Some(s1));
    let v2 = (Some(PredicateStatus::Disabled), Some(s2));
    assert(store.insert(key, v1).insert(key, v2) =~= store.insert(key, v2));
}

/// The speed at which a transfer replay fetches blocks.
pub const REPLAY_SPEED: usize = 100;

/// The worker that consumes the blocks of a download-and-apply pipeline.
#[derive(Clone, Copy, Debug, PartialEq, Eq, Structural)]
pub enum BlockProcessor {
    /// Full inscription indexing.
    InscriptionIndexing,
    /// Recomputation of inscription transfers only.
    TransfersRecomputing,
}

/// A run of the download-and-apply pipeline: start a fresh processor of the
/// given kind, then fetch and apply the blocks from `start_block` to
/// `end_block`, both included, at the given speed; no block below
/// `first_inscription_height` holds inscriptions.
#[derive(Clone, Copy, Debug, PartialEq, Eq, Structural)]
pub struct PipelineRequest {
    pub processor: BlockProcessor,
    pub start_block: u64,
    pub end_block: u64,
    pub first_inscription_height: u64,
    pub speed: usize,
}

/// The next step of a catch-up.
#[derive(Debug)]
pub enum SyncStep {
    /// Run this pipeline, then report how it went.
    Pipeline(PipelineRequest),
    /// No gap remains: the catch-up succeeded.
    CaughtUp,
    /// The catch-up ends with this error.
    Failed(String),
}

/// Where a catch-up stands: how many processors it started, how many pipeline
/// runs completed, whether it waits for one, and whether it is over.
#[derive(Clone, Copy, Debug, PartialEq, Eq, Structural)]
pub struct StateSync {
    pub workers_started: u64,
    pub pipeline_runs: u64,
    pub awaiting_pipeline: bool,
    pub finished: bool,
}

pub open spec fn saturating_inc(n: u64) -> u64 {
    if n < u64::MAX {
        (n + 1) as u64
    } else {
        n
    }
}

fn inc(n: u64) -> (r: u64)
    ensures
        r == saturating_inc(n),
{
    if n < u64::MAX {
        n + 1
    } else {
        n
    }
}

impl StateSync {
    pub fn new() -> (r: StateSync)
        ensures
            r == (StateSync {
                workers_started: 0,
                pipeline_runs: 0,
                awaiting_pipeline: false,
                finished: false,
            }),
    {
        StateSync { workers_started: 0, pipeline_runs: 0, awaiting_pipeline: false, finished: false }
    }

    /// Records how the last pipeline run went. An error ends the catch-up and
    /// is handed back; after a success the sync policy is asked again.
    pub fn pipeline_finished(&mut self, result: Result<(), String>) -> (r: Option<String>)
        requires
            old(self).awaiting_pipeline,
            !old(self).finished,
        ensures
            !final(self).awaiting_pipeline,
            final(self).workers_started == old(self).workers_started,
            match result {
                Ok(()) => r is None && !final(self).finished && final(self).pipeline_runs
                    == saturating_inc(old(self).pipeline_runs),
                Err(e) => r == Some(e) && final(self).finished && final(self).pipeline_runs
                    == old(self).pipeline_runs,
            },
    {
        self.awaiting_pipeline = false;
        match result {
            Ok(()) => {
                self.pipeline_runs = inc(self.pipeline_runs);
                None
            },
            Err(e) => {
                self.finished = true;
                Some(e)
            },
        }
    }
}

/// The indexing service: its configuration, fixed for its lifetime.
#[derive(Debug)]
pub struct Service {
    pub config: Config,
}

impl Service {
    pub fn new(config: Config) -> (r: Service)
        ensures
            r.config == config,
    {
        Service { config }
    }

    /// One round of the catch-up, given the sync policy's answer: an error ends
    /// it with that error; no remaining gap ends it with success, after which
    /// the policy is not asked again; a gap starts a fresh indexing processor
    /// and asks for one pipeline run over exactly that range at that speed.
    pub fn update_state(
        &self,
        sync: &mut StateSync,
        policy_answer: Result<Option<(u64, u64, usize)>, String>,
    ) -> (r: SyncStep)
        requires
            !old(sync).finished,
            !old(sync).awaiting_pipeline,
        ensures
            final(sync).pipeline_runs == old(sync).pipeline_runs,
            match policy_answer {
                Err(e) => r == SyncStep::Failed(e) && final(sync).finished
                    && final(sync).workers_started == old(sync).workers_started
                    && !final(sync).awaiting_pipeline,
                Ok(None) => r is CaughtUp && final(sync).finished && final(sync).workers_started
                    == old(sync).workers_started && !final(sync).awaiting_pipeline,
                Ok(Some((start_block, end_block, speed))) => r == SyncStep::Pipeline(
                    PipelineRequest {
                        processor: BlockProcessor::InscriptionIndexing,
                        start_block,
                        end_block,
                        first_inscription_height: first_inscription_height_of(
                            self.config.network.bitcoin_network,
                        ),
                        speed,
                    },
                ) && !final(sync).finished && final(sync).awaiting_pipeline
                    && final(sync).workers_started == saturating_inc(old(sync).workers_started),
            },
    {
        match policy_answer {
            Err(e) => {
                sync.finished = true;
                SyncStep::Failed(e)
            },
            Ok(None) => {
                sync.finished = true;
                SyncStep::CaughtUp
            },
            Ok(Some((start_block, end_block, speed))) => {
                sync.workers_started = inc(sync.workers_started);
                sync.awaiting_pipeline = true;
                SyncStep::Pipeline(
                    PipelineRequest {
                        processor: BlockProcessor::InscriptionIndexing,
                        start_block,
                        end_block,
                        first_inscription_height: first_inscription_height(
                            self.config.network.bitcoin_network,
                        ),
                        speed,
                    },
                )
            },
        }
    }

    /// The single pipeline run that replays transfers over an explicit range.
    pub fn replay_transfers(&self, start_block: u64, end_block: u64) -> (r: PipelineRequest)
        ensures
            r == (PipelineRequest {
                processor: BlockProcessor::TransfersRecomputing,
                start_block,
                end_block,
                first_inscription_height: first_inscription_height_of(
                    self.config.network.bitcoin_network,
                ),
                speed: REPLAY_SPEED,
            }),
    {
        PipelineRequest {
            processor: BlockProcessor::TransfersRecomputing,
            start_block,
            end_block,
            first_inscription_height: first_inscription_height(self.config.network.bitcoin_network),
            speed: REPLAY_SPEED,
        }
    }

    /// What answers a lifecycle event under this service's configuration.
    pub fn handle_observer_event(&self, event: ObserverEvent) -> (r: LifecycleReaction)
        ensures
            reaction_operations(r.store_operations@, self.config.http_api is On, event),
            r.scan == scan_of(event),
            r.terminate == (event is Terminate),
    {
        lifecycle_reaction(self.config.is_http_api_enabled(), event)
    }
}

} // verus!
