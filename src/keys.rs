use vstd::prelude::*;

verus! {

/// Identifier of the node-layer recursion circuit: every node-aggregation
/// circuit shares the setup stored under this id.
pub const NODE_LAYER_CIRCUIT_ID: u8 = 2;

/// Identifier of the scheduler recursion circuit, the top of the recursion tree.
pub const SCHEDULER_CIRCUIT_ID: u8 = 1;

/// Stage of the recursion tree that a circuit belongs to.
#[derive(Clone, Copy, Debug, PartialEq, Eq, Hash, Structural)]
pub enum AggregationRound {
    BasicCircuits,
    LeafAggregation,
    NodeAggregation,
    RecursionTip,
    Scheduler,
}

/// Number of a round on the wire and in the job queue.
pub open spec fn round_number(r: AggregationRound) -> nat {
    match r {
        AggregationRound::BasicCircuits => 0,
        AggregationRound::LeafAggregation => 1,
        AggregationRound::NodeAggregation => 2,
        AggregationRound::RecursionTip => 3,
        AggregationRound::Scheduler => 4,
    }
}

impl AggregationRound {
    /// The round with the given number, if there is one.
    pub fn from_number(n: u8) -> (r: Option<AggregationRound>)
        ensures
            match r {
                Some(round) => round_number(round) == n,
                None => n >= 5,
            },
    {
        match n {
            0 => Some(AggregationRound::BasicCircuits),
            1 => Some(AggregationRound::LeafAggregation),
            2 => Some(AggregationRound::NodeAggregation),
            3 => Some(AggregationRound::RecursionTip),
            4 => Some(AggregationRound::Scheduler),
            _ => None,
        }
    }

    /// The number of this round.
    pub fn number(&self) -> (n: u8)
        ensures
            n == round_number(*self),
    {
        match self {
            AggregationRound::BasicCircuits => 0,
            AggregationRound::LeafAggregation => 1,
            AggregationRound::NodeAggregation => 2,
            AggregationRound::RecursionTip => 3,
            AggregationRound::Scheduler => 4,
        }
    }
}

/// A `(circuit_id, aggregation_round)` pair as a worker names it in a filter;
/// the round is kept as its number.
#[derive(Clone, Copy, Debug, PartialEq, Eq, Hash, Structural)]
pub struct CircuitIdRoundTuple {
    pub circuit_id: u8,
    pub aggregation_round: u8,
}

impl CircuitIdRoundTuple {
    pub fn new(circuit_id: u8, aggregation_round: u8) -> (r: CircuitIdRoundTuple)
        ensures
            r.circuit_id == circuit_id,
            r.aggregation_round == aggregation_round,
    {
        CircuitIdRoundTuple { circuit_id, aggregation_round }
    }
}

/// Identifies a proving context: the setup data and verification key of a circuit.
#[derive(Clone, Copy, Debug, PartialEq, Eq, Hash, Structural)]
pub struct ProverServiceDataKey {
    pub circuit_id: u8,
    pub round: AggregationRound,
}

impl ProverServiceDataKey {
    pub fn new(circuit_id: u8, round: AggregationRound) -> (r: ProverServiceDataKey)
        ensures
            r.circuit_id == circuit_id,
            r.round == round,
    {
        ProverServiceDataKey { circuit_id, round }
    }
}

/// The key under which the setup of `key` is stored: node-aggregation keys
/// collapse onto the node-layer circuit, every other key stands for itself.
pub open spec fn normalized_key(key: ProverServiceDataKey) -> ProverServiceDataKey {
    if key.round == AggregationRound::NodeAggregation {
        ProverServiceDataKey { circuit_id: NODE_LAYER_CIRCUIT_ID, round: key.round }
    } else {
        key
    }
}

/// Whether `filter` names the pair `(circuit_id, round)`.
pub open spec fn filter_names(
    filter: Seq<CircuitIdRoundTuple>,
    circuit_id: u8,
    round: AggregationRound,
) -> bool {
    exists|i: int|
        0 <= i < filter.len() && #[trigger] filter[i].circuit_id == circuit_id
            && filter[i].aggregation_round == round_number(round)
}

/// The setup-data key that a configured `(circuit_id, round)` pair stands for.
pub fn setup_metadata_to_setup_data_key(setup_metadata: &CircuitIdRoundTuple) -> (r: Option<
    ProverServiceDataKey,
>)
    ensures
        match r {
            Some(key) => key.circuit_id == setup_metadata.circuit_id && round_number(key.round)
                == setup_metadata.aggregation_round,
            None => setup_metadata.aggregation_round >= 5,
        },
{
    match AggregationRound::from_number(setup_metadata.aggregation_round) {
        Some(round) => Some(ProverServiceDataKey { circuit_id: setup_metadata.circuit_id, round }),
        None => None,
    }
}

/// Normalizes a key for setup lookup (see `normalized_key`).
pub fn get_setup_data_key(key: ProverServiceDataKey) -> (r: ProverServiceDataKey)
    ensures
        r == normalized_key(key),
{
    match key.round {
        AggregationRound::NodeAggregation => {
            ProverServiceDataKey { circuit_id: NODE_LAYER_CIRCUIT_ID, round: key.round }
        },
        _ => key,
    }
}

/// Whether `filter` names the pair `(circuit_id, round)`.
pub fn filter_contains(filter: &Vec<CircuitIdRoundTuple>, circuit_id: u8, round: AggregationRound) -> (r:
    bool)
    ensures
        r == filter_names(filter@, circuit_id, round),
{
    let n = round.number();
    let mut i: usize = 0;
    while i < filter.len()
        invariant
            i <= filter@.len(),
            n == round_number(round),
            forall|j: int|
                0 <= j < i ==> !(#[trigger] filter@[j].circuit_id == circuit_id
                    && filter@[j].aggregation_round == n),
        decreases filter@.len() - i,
    {
        if filter[i].circuit_id == circuit_id && filter[i].aggregation_round == n {
            return true;
        }
        i += 1;
    }
    false
}

} // verus!
