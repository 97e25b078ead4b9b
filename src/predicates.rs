use vstd::prelude::*;
use vstd::string::StringExecFns;

use crate::config::{BitcoinNetwork, StacksNetwork};

verus! {

/// A subscription, as one chain scope holds it: its unique key and whether it
/// delivers yet.
#[derive(Debug)]
pub struct PredicateSpecification {
    pub uuid: String,
    pub name: String,
    pub enabled: bool,
}

impl PredicateSpecification {
    /// An identical copy.
    pub fn duplicate(&self) -> (r: PredicateSpecification)
        ensures
            r == *self,
    {
        PredicateSpecification {
            uuid: self.uuid.clone(),
            name: self.name.clone(),
            enabled: self.enabled,
        }
    }
}

/// A predicate together with the chain it watches.
#[derive(Debug)]
pub enum ChainhookSpecification {
    Bitcoin(PredicateSpecification),
    Stacks(PredicateSpecification),
}

/// A predicate as supplied at launch: for each chain scope, the networks on
/// which it may run.
#[derive(Debug)]
#[allow(inconsistent_fields)]
pub enum ChainhookFullSpecification {
    Bitcoin { uuid: String, name: String, networks: Vec<BitcoinNetwork> },
    Stacks { uuid: String, name: String, networks: Vec<StacksNetwork> },
}

pub open spec fn spec_of(s: ChainhookSpecification) -> PredicateSpecification {
    match s {
        ChainhookSpecification::Bitcoin(p) => p,
        ChainhookSpecification::Stacks(p) => p,
    }
}

/// The key under which a predicate is stored.
pub open spec fn predicate_key(uuid: Seq<char>) -> Seq<char> {
    "predicate:"@ + uuid
}

impl ChainhookSpecification {
    pub fn uuid(&self) -> (r: &str)
        ensures
            r@ == spec_of(*self).uuid@,
    {
        match self {
            ChainhookSpecification::Bitcoin(p) => p.uuid.as_str(),
            ChainhookSpecification::Stacks(p) => p.uuid.as_str(),
        }
    }

    /// The key of this predicate in the persisted store.
    pub fn key(&self) -> (r: String)
        ensures
            r@ == predicate_key(spec_of(*self).uuid@),
    {
        String::from_str("predicate:").concat(self.uuid())
    }

    /// An identical copy.
    pub fn duplicate(&self) -> (r: ChainhookSpecification)
        ensures
            r == *self,
    {
        match self {
            ChainhookSpecification::Bitcoin(p) => ChainhookSpecification::Bitcoin(p.duplicate()),
            ChainhookSpecification::Stacks(p) => ChainhookSpecification::Stacks(p.duplicate()),
        }
    }
}

/// No two predicates of `s` share a uuid.
pub open spec fn unique_uuids(s: Seq<PredicateSpecification>) -> bool {
    forall|i: int, j: int|
        0 <= i < s.len() && 0 <= j < s.len() && i != j ==> s[i].uuid@ != s[j].uuid@
}

pub open spec fn holds_uuid(s: Seq<PredicateSpecification>, uuid: Seq<char>) -> bool {
    exists|i: int| 0 <= i < s.len() && s[i].uuid@ == uuid
}

/// `s` without the predicates whose uuid is `uuid`, in the same order.
pub open spec fn without_uuid(s: Seq<PredicateSpecification>, uuid: Seq<char>) -> Seq<
    PredicateSpecification,
>
    decreases s.len(),
{
    if s.len() == 0 {
        s
    } else {
        let prev = without_uuid(s.drop_last(), uuid);
        if s.last().uuid@ == uuid {
            prev
        } else {
            prev.push(s.last())
        }
    }
}

proof fn lemma_without_holds(s: Seq<PredicateSpecification>, uuid: Seq<char>, other: Seq<char>)
    ensures
        holds_uuid(without_uuid(s, uuid), other) ==> holds_uuid(s, other) && other != uuid,
    decreases s.len(),
{
    if s.len() > 0 {
        let prev = without_uuid(s.drop_last(), uuid);
        lemma_without_holds(s.drop_last(), uuid, other);
        if holds_uuid(without_uuid(s, uuid), other) {
            let w = without_uuid(s, uuid);
            let i = choose|i: int| 0 <= i < w.len() && w[i].uuid@ == other;
            if i < prev.len() {
                assert(prev[i] == w[i]);
                assert(holds_uuid(prev, other));
                let j = choose|j: int|
                    0 <= j < s.drop_last().len() && s.drop_last()[j].uuid@ == other;
                assert(s[j] == s.drop_last()[j]);
            } else {
                assert(w[i] == s.last());
                assert(s[s.len() - 1].uuid@ == other);
            }
        }
    }
}

proof fn lemma_push_unique(s: Seq<PredicateSpecification>, p: PredicateSpecification)
    requires
        unique_uuids(s),
        !holds_uuid(s, p.uuid@),
    ensures
        unique_uuids(s.push(p)),
{
    let t = s.push(p);
    assert forall|a: int, b: int|
        0 <= a < t.len() && 0 <= b < t.len() && a != b implies t[a].uuid@ != t[b].uuid@ by {
        if a < s.len() && b < s.len() {
            assert(s[a].uuid@ != s[b].uuid@);
        } else if a < s.len() {
            assert(s[a].uuid@ != p.uuid@);
        } else {
            assert(s[b].uuid@ != p.uuid@);
        }
    }
}

proof fn lemma_without_unique(s: Seq<PredicateSpecification>, uuid: Seq<char>)
    requires
        unique_uuids(s),
    ensures
        unique_uuids(without_uuid(s, uuid)),
        !holds_uuid(without_uuid(s, uuid), uuid),
    decreases s.len(),
{
    lemma_without_holds(s, uuid, uuid);
    if s.len() > 0 {
        let d = s.drop_last();
        assert(unique_uuids(d)) by {
            assert forall|a: int, b: int|
                0 <= a < d.len() && 0 <= b < d.len() && a != b implies d[a].uuid@
                != d[b].uuid@ by {
                assert(s[a].uuid@ != s[b].uuid@);
            }
        }
        lemma_without_unique(d, uuid);
        if s.last().uuid@ != uuid {
            lemma_without_holds(d, uuid, s.last().uuid@);
            if holds_uuid(d, s.last().uuid@) {
                let j = choose|j: int| 0 <= j < d.len() && d[j].uuid@ == s.last().uuid@;
                assert(s[j].uuid@ != s[s.len() - 1].uuid@);
            }
            lemma_push_unique(without_uuid(d, uuid), s.last());
        }
    }
}

/// The in-memory set of active predicates, one list per chain scope.
#[derive(Debug)]
pub struct ChainhookConfig {
    pub bitcoin_chainhooks: Vec<PredicateSpecification>,
    pub stacks_chainhooks: Vec<PredicateSpecification>,
}

/// A model of the registry: its two lists.
pub type RegistryModel = (Seq<PredicateSpecification>, Seq<PredicateSpecification>);

/// The registry after registering `s`: any predicate of the same uuid leaves
/// both lists, and `s` joins the end of its scope's list.
pub open spec fn register_model(m: RegistryModel, s: ChainhookSpecification) -> RegistryModel {
    let p = spec_of(s);
    let bitcoin = without_uuid(m.0, p.uuid@);
    let stacks = without_uuid(m.1, p.uuid@);
    match s {
        ChainhookSpecification::Bitcoin(_) => (bitcoin.push(p), stacks),
        ChainhookSpecification::Stacks(_) => (bitcoin, stacks.push(p)),
    }
}

/// Each uuid is held at most once over both lists of the registry.
pub open spec fn registry_wf(m: RegistryModel) -> bool {
    &&& unique_uuids(m.0)
    &&& unique_uuids(m.1)
    &&& forall|u: Seq<char>| #[trigger] holds_uuid(m.0, u) ==> !holds_uuid(m.1, u)
}

/// Registering keeps each uuid at most once over both lists.
pub proof fn lemma_register_keeps_uuids_unique(m: RegistryModel, s: ChainhookSpecification)
    requires
        registry_wf(m),
    ensures
        registry_wf(register_model(m, s)),
{
    let p = spec_of(s);
    let b = without_uuid(m.0, p.uuid@);
    let t = without_uuid(m.1, p.uuid@);
    lemma_without_unique(m.0, p.uuid@);
    lemma_without_unique(m.1, p.uuid@);
    let r = register_model(m, s);
    match s {
        ChainhookSpecification::Bitcoin(_) => {
            lemma_push_unique(b, p);
        },
        ChainhookSpecification::Stacks(_) => {
            lemma_push_unique(t, p);
        },
    }
    assert forall|u: Seq<char>| #[trigger] holds_uuid(r.0, u) implies !holds_uuid(r.1, u) by {
        lemma_without_holds(m.0, p.uuid@, u);
        lemma_without_holds(m.1, p.uuid@, u);
        match s {
            ChainhookSpecification::Bitcoin(_) => {
                if holds_uuid(r.0, u) && holds_uuid(r.1, u) {
                    if u != p.uuid@ {
                        let i = choose|i: int| 0 <= i < r.0.len() && r.0[i].uuid@ == u;
                        assert(b[i] == r.0[i]);
                        assert(holds_uuid(b, u));
                        assert(holds_uuid(m.0, u));
                    }
                }
            },
            ChainhookSpecification::Stacks(_) => {
                if holds_uuid(r.0, u) && holds_uuid(r.1, u) {
                    if u != p.uuid@ {
                        let i = choose|i: int| 0 <= i < r.1.len() && r.1[i].uuid@ == u;
                        assert(t[i] == r.1[i]);
                        assert(holds_uuid(t, u));
                        assert(holds_uuid(m.1, u));
                    }
                }
            },
        }
    }
}

/// The registry after registering each of `specs` in turn.
pub open spec fn register_all(m: RegistryModel, specs: Seq<ChainhookSpecification>) -> RegistryModel
    decreases specs.len(),
{
    if specs.len() == 0 {
        m
    } else {
        register_model(register_all(m, specs.drop_last()), specs.last())
    }
}

/// What a launch-supplied predicate becomes on the given networks, or `None`
/// when it does not run on them. It starts disabled.
pub open spec fn resolve_full(
    f: ChainhookFullSpecification,
    bitcoin: BitcoinNetwork,
    stacks: StacksNetwork,
) -> Option<ChainhookSpecification> {
    match f {
        ChainhookFullSpecification::Bitcoin { uuid, name, networks } => if networks@.contains(
            bitcoin,
        ) {
            Some(
                ChainhookSpecification::Bitcoin(
                    PredicateSpecification { uuid, name, enabled: false },
                ),
            )
        } else {
            None
        },
        ChainhookFullSpecification::Stacks { uuid, name, networks } => if networks@.contains(
            stacks,
        ) {
            Some(
                ChainhookSpecification::Stacks(
                    PredicateSpecification { uuid, name, enabled: false },
                ),
            )
        } else {
            None
        },
    }
}

/// The registry after registering, on the given networks, each launch-supplied
/// predicate of `fs` in turn; those that do not run on them are left out.
pub open spec fn register_all_full(
    m: RegistryModel,
    fs: Seq<ChainhookFullSpecification>,
    bitcoin: BitcoinNetwork,
    stacks: StacksNetwork,
) -> RegistryModel
    decreases fs.len(),
{
    if fs.len() == 0 {
        m
    } else {
        let prev = register_all_full(m, fs.drop_last(), bitcoin, stacks);
        match resolve_full(fs.last(), bitcoin, stacks) {
            Some(s) => register_model(prev, s),
            None => prev,
        }
    }
}

fn contains_bitcoin_network(v: &Vec<BitcoinNetwork>, n: BitcoinNetwork) -> (r: bool)
    ensures
        r == v@.contains(n),
{
    let mut i: usize = 0;
    while i < v.len()
        invariant
            0 <= i <= v.len(),
            forall|j: int| 0 <= j < i ==> v@[j] != n,
        decreases v.len() - i,
    {
        if v[i] == n {
            return true;
        }
        i = i + 1;
    }
    false
}

fn contains_stacks_network(v: &Vec<StacksNetwork>, n: StacksNetwork) -> (r: bool)
    ensures
        r == v@.contains(n),
{
    let mut i: usize = 0;
    while i < v.len()
        invariant
            0 <= i <= v.len(),
            forall|j: int| 0 <= j < i ==> v@[j] != n,
        decreases v.len() - i,
    {
        if v[i] == n {
            return true;
        }
        i = i + 1;
    }
    false
}

/// Removes from `v` the predicates whose uuid is `uuid`.
fn remove_uuid(v: &mut Vec<PredicateSpecification>, uuid: &String)
    ensures
        final(v)@ == without_uuid(old(v)@, uuid@),
{
    let mut kept: Vec<PredicateSpecification> = Vec::new();
    let mut i: usize = 0;
    while i < v.len()
        invariant
            0 <= i <= v@.len(),
            v@ == old(v)@,
            kept@ == without_uuid(v@.take(i as int), uuid@),
        decreases v@.len() - i,
    {
        proof {
            assert(v@.take(i + 1).drop_last() =~= v@.take(i as int));
        }
        if v[i].uuid != *uuid {
            kept.push(v[i].duplicate());
        }
        i = i + 1;
    }
    assert(v@.take(i as int) =~= v@);
    *v = kept;
}

impl ChainhookConfig {
    pub open spec fn model(&self) -> RegistryModel {
        (self.bitcoin_chainhooks@, self.stacks_chainhooks@)
    }

    /// Each uuid is held at most once over both lists.
    pub open spec fn wf(&self) -> bool {
        registry_wf(self.model())
    }

    pub fn new() -> (r: ChainhookConfig)
        ensures
            r.model() == (Seq::<PredicateSpecification>::empty(), Seq::<
                PredicateSpecification,
            >::empty()),
            r.wf(),
    {
        ChainhookConfig { bitcoin_chainhooks: Vec::new(), stacks_chainhooks: Vec::new() }
    }

    /// Adds a predicate to the end of its scope's list, after removing any
    /// predicate of the same uuid from both lists: the last registration wins.
    pub fn register_specification(&mut self, spec: ChainhookSpecification)
        requires
            old(self).wf(),
        ensures
            final(self).wf(),
            final(self).model() == register_model(old(self).model(), spec),
    {
        proof {
            lemma_register_keeps_uuids_unique(self.model(), spec);
        }
        match spec {
            ChainhookSpecification::Bitcoin(p) => {
                remove_uuid(&mut self.bitcoin_chainhooks, &p.uuid);
                remove_uuid(&mut self.stacks_chainhooks, &p.uuid);
                self.bitcoin_chainhooks.push(p);
            },
            ChainhookSpecification::Stacks(p) => {
                remove_uuid(&mut self.bitcoin_chainhooks, &p.uuid);
                remove_uuid(&mut self.stacks_chainhooks, &p.uuid);
                self.stacks_chainhooks.push(p);
            },
        }
    }

    /// Registers a launch-supplied predicate on the given networks. It is refused
    /// when it does not run on them.
    pub fn register_full_specification(
        &mut self,
        networks: (BitcoinNetwork, StacksNetwork),
        spec: ChainhookFullSpecification,
    ) -> (r: Result<ChainhookSpecification, String>)
        requires
            old(self).wf(),
        ensures
            final(self).wf(),
            r is Err <==> resolve_full(spec, networks.0, networks.1) is None,
            r is Err ==> final(self).model() == old(self).model(),
            r is Ok ==> resolve_full(spec, networks.0, networks.1) == Some(r->Ok_0)
                && final(self).model() == register_model(old(self).model(), r->Ok_0),
    {
        let resolved = match spec {
            ChainhookFullSpecification::Bitcoin { uuid, name, networks: nets } => {
                if contains_bitcoin_network(&nets, networks.0) {
                    ChainhookSpecification::Bitcoin(
                        PredicateSpecification { uuid, name, enabled: false },
                    )
                } else {
                    return Err(String::from_str("predicate does not run on this bitcoin network"));
                }
            },
            ChainhookFullSpecification::Stacks { uuid, name, networks: nets } => {
                if contains_stacks_network(&nets, networks.1) {
                    ChainhookSpecification::Stacks(
                        PredicateSpecification { uuid, name, enabled: false },
                    )
                } else {
                    return Err(String::from_str("predicate does not run on this stacks network"));
                }
            },
        };
        let registered_copy = resolved.duplicate();
        self.register_specification(resolved);
        Ok(registered_copy)
    }

    /// The Bitcoin predicates, all disabled, as used to replay blocks at start-up:
    /// replay evaluates them without delivering.
    pub fn bitcoin_predicates_for_replay(&self) -> (r: Vec<PredicateSpecification>)
        ensures
            r@.len() == self.bitcoin_chainhooks@.len(),
            forall|i: int|
                0 <= i < r@.len() ==> r@[i].uuid == self.bitcoin_chainhooks@[i].uuid
                    && r@[i].name == self.bitcoin_chainhooks@[i].name && !r@[i].enabled,
    {
        let mut r: Vec<PredicateSpecification> = Vec::new();
        let mut i: usize = 0;
        while i < self.bitcoin_chainhooks.len()
            invariant
                0 <= i <= self.bitcoin_chainhooks@.len(),
                r@.len() == i,
                forall|j: int|
                    0 <= j < i ==> r@[j].uuid == self.bitcoin_chainhooks@[j].uuid && r@[j].name
                        == self.bitcoin_chainhooks@[j].name && !r@[j].enabled,
            decreases self.bitcoin_chainhooks@.len() - i,
        {
            let p = &self.bitcoin_chainhooks[i];
            r.push(
                PredicateSpecification {
                    uuid: p.uuid.clone(),
                    name: p.name.clone(),
                    enabled: false,
                },
            );
            i = i + 1;
        }
        r
    }
}

} // verus!
