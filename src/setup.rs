use std::collections::HashMap;

use vstd::prelude::*;

use crate::keys::{
    get_setup_data_key, normalized_key, round_number, setup_metadata_to_setup_data_key,
    AggregationRound, CircuitIdRoundTuple, ProverServiceDataKey,
};

verus! {

broadcast use vstd::std_specs::hash::group_hash_axioms;

/// Why setup data could not be had.
#[derive(Clone, Copy, Debug, PartialEq, Eq, Structural)]
pub enum SetupError {
    /// The in-memory cache holds nothing under the (normalized) key.
    SetupMissing { key: ProverServiceDataKey },
    /// A configured pair names a round number that does not exist.
    InvalidRound { circuit_id: u8, aggregation_round: u8 },
    /// The specialized group has no circuits configured.
    NoCircuitsForGroup,
}

/// The number under which the cache files a key.
pub open spec fn key_code(key: ProverServiceDataKey) -> nat {
    key.circuit_id as nat * 8 + round_number(key.round)
}

proof fn lemma_key_code_injective(a: ProverServiceDataKey, b: ProverServiceDataKey)
    ensures
        key_code(a) == key_code(b) ==> a == b,
{
    let (x, y) = (a.circuit_id as int, b.circuit_id as int);
    let (r, q) = (round_number(a.round) as int, round_number(b.round) as int);
    if key_code(a) == key_code(b) {
        assert(x == y && r == q) by (nonlinear_arith)
            requires
                x * 8 + r == y * 8 + q,
                0 <= r < 8,
                0 <= q < 8,
        ;
    }
}

fn code_of(key: ProverServiceDataKey) -> (r: u16)
    ensures
        r as nat == key_code(key),
{
    key.circuit_id as u16 * 8 + key.round.number() as u16
}

/// Setup data loaded ahead of time, shared read-only by every proving and
/// verification with the same key.
pub struct SetupDataCache<D> {
    entries: HashMap<u16, D>,
}

impl<D> SetupDataCache<D> {
    /// The data filed under exactly `key`, if any.
    pub closed spec fn stored(&self, key: ProverServiceDataKey) -> Option<D> {
        if self.entries@.contains_key(key_code(key) as u16) {
            Some(self.entries@[key_code(key) as u16])
        } else {
            None
        }
    }

    /// An empty cache.
    pub fn new() -> (r: Self)
        ensures
            forall|k: ProverServiceDataKey| #[trigger] r.stored(k) is None,
    {
        SetupDataCache { entries: HashMap::new() }
    }

    /// Files `data` under exactly `key` (no normalization), replacing what was there.
    pub fn insert(&mut self, key: ProverServiceDataKey, data: D)
        ensures
            forall|k: ProverServiceDataKey| #[trigger]
                final(self).stored(k) == if k == key {
                    Some(data)
                } else {
                    old(self).stored(k)
                },
    {
        let code = code_of(key);
        self.entries.insert(code, data);
        proof {
            assert forall|k: ProverServiceDataKey| #[trigger]
                self.stored(k) == if k == key {
                    Some(data)
                } else {
                    old(self).stored(k)
                } by {
                lemma_key_code_injective(k, key);
                assert(key_code(k) < 0x10000 && key_code(key) < 0x10000);
            }
        }
    }

    /// The data filed under exactly `key`, if any.
    pub fn get(&self, key: ProverServiceDataKey) -> (r: Option<&D>)
        ensures
            match r {
                Some(d) => self.stored(key) == Some(*d),
                None => self.stored(key) is None,
            },
    {
        self.entries.get(&code_of(key))
    }
}

/// Where a prover takes its setup data from.
pub enum SetupLoadMode<D> {
    /// Everything was loaded at startup into this cache.
    FromMemory(SetupDataCache<D>),
    /// Each lookup loads from disk.
    FromDisk,
}

/// How a lookup is served.
#[derive(Debug)]
pub enum SetupSource<'a, D> {
    /// Shared data from the in-memory cache.
    Cached(&'a D),
    /// The data must be loaded from disk under this (normalized) key.
    Load(ProverServiceDataKey),
}

/// What a lookup of `key` gives in `mode`: the cache entry under the normalized
/// key, `SetupMissing` when there is none, or a load of the normalized key.
pub open spec fn setup_lookup<D>(mode: SetupLoadMode<D>, key: ProverServiceDataKey) -> Result<
    SetupSource<'static, D>,
    SetupError,
> {
    match mode {
        SetupLoadMode::FromMemory(cache) => match cache.stored(normalized_key(key)) {
            Some(d) => Ok(SetupSource::Cached(&d)),
            None => Err(SetupError::SetupMissing { key: normalized_key(key) }),
        },
        SetupLoadMode::FromDisk => Ok(SetupSource::Load(normalized_key(key))),
    }
}

/// Looks up the setup data of `key` (see `setup_lookup`).
pub fn get_setup_data<'a, D>(setup_load_mode: &'a SetupLoadMode<D>, key: ProverServiceDataKey) -> (r:
    Result<SetupSource<'a, D>, SetupError>)
    ensures
        match (r, setup_lookup(*setup_load_mode, key)) {
            (Ok(SetupSource::Cached(a)), Ok(SetupSource::Cached(b))) => *a == *b,
            (Ok(SetupSource::Load(a)), Ok(SetupSource::Load(b))) => a == b,
            (Err(a), Err(b)) => a == b,
            _ => false,
        },
{
    let key = get_setup_data_key(key);
    match setup_load_mode {
        SetupLoadMode::FromMemory(cache) => match cache.get(key) {
            Some(d) => Ok(SetupSource::Cached(d)),
            None => Err(SetupError::SetupMissing { key }),
        },
        SetupLoadMode::FromDisk => Ok(SetupSource::Load(key)),
    }
}

/// Node-aggregation normalization: for keys of the node-aggregation round, a
/// lookup gives the same result whatever the circuit id.
pub proof fn lemma_node_aggregation_lookup_shared<D>(
    mode: SetupLoadMode<D>,
    a: ProverServiceDataKey,
    b: ProverServiceDataKey,
)
    requires
        a.round == AggregationRound::NodeAggregation,
        b.round == AggregationRound::NodeAggregation,
    ensures
        setup_lookup(mode, a) == setup_lookup(mode, b),
{
}

/// The keys of the setup data to load for a specialized group whose configured
/// pairs are `group_circuits`: each pair's key, in order, without normalization.
/// Fails with `NoCircuitsForGroup` when the group has no configuration, and with
/// `InvalidRound` for the first pair whose round number does not exist.
pub fn setup_keys_to_load(group_circuits: Option<&Vec<CircuitIdRoundTuple>>) -> (r: Result<
    Vec<ProverServiceDataKey>,
    SetupError,
>)
    ensures
        match group_circuits {
            None => r == Err::<Vec<ProverServiceDataKey>, SetupError>(SetupError::NoCircuitsForGroup),
            Some(list) => match r {
                Ok(keys) => {
                    &&& keys@.len() == list@.len()
                    &&& forall|i: int|
                        0 <= i < list@.len() ==> (#[trigger] keys@[i]).circuit_id == list@[i].circuit_id
                            && round_number(keys@[i].round) == list@[i].aggregation_round
                },
                Err(e) => exists|i: int|
                    0 <= i < list@.len() && #[trigger] list@[i].aggregation_round >= 5 && e
                        == SetupError::InvalidRound {
                        circuit_id: list@[i].circuit_id,
                        aggregation_round: list@[i].aggregation_round,
                    } && forall|j: int| 0 <= j < i ==> #[trigger] list@[j].aggregation_round < 5,
            },
        },
{
    match group_circuits {
        None => Err(SetupError::NoCircuitsForGroup),
        Some(list) => keys_for_pairs(list),
    }
}

fn keys_for_pairs(list: &Vec<CircuitIdRoundTuple>) -> (r: Result<Vec<ProverServiceDataKey>, SetupError>)
    ensures
        match r {
            Ok(keys) => {
                &&& keys@.len() == list@.len()
                &&& forall|i: int|
                    0 <= i < list@.len() ==> (#[trigger] keys@[i]).circuit_id == list@[i].circuit_id
                        && round_number(keys@[i].round) == list@[i].aggregation_round
            },
            Err(e) => exists|i: int|
                0 <= i < list@.len() && #[trigger] list@[i].aggregation_round >= 5 && e
                    == SetupError::InvalidRound {
                    circuit_id: list@[i].circuit_id,
                    aggregation_round: list@[i].aggregation_round,
                } && forall|j: int| 0 <= j < i ==> #[trigger] list@[j].aggregation_round < 5,
        },
{
    let mut keys: Vec<ProverServiceDataKey> = Vec::new();
    let mut i: usize = 0;
    while i < list.len()
        invariant
            i <= list@.len(),
            keys@.len() == i,
            forall|j: int|
                0 <= j < i ==> (#[trigger] keys@[j]).circuit_id == list@[j].circuit_id
                    && round_number(keys@[j].round) == list@[j].aggregation_round
                    && list@[j].aggregation_round < 5,
        decreases list@.len() - i,
    {
        match setup_metadata_to_setup_data_key(&list[i]) {
            Some(key) => keys.push(key),
            None => {
                proof {
                    assert forall|j: int| 0 <= j < i implies #[trigger] list@[j].aggregation_round < 5 by {
                        assert(keys@[j].circuit_id == list@[j].circuit_id);
                    }
                }
                return Err(
                    SetupError::InvalidRound {
                        circuit_id: list[i].circuit_id,
                        aggregation_round: list[i].aggregation_round,
                    },
                );
            },
        }
        i += 1;
    }
    Ok(keys)
}

} // verus!
