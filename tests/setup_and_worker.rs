use prover_fri::coordinator::NO_JOB_AVAILABLE_ERROR_CODE;
use prover_fri::jobs::{CircuitLayer, CircuitWrapper, FriProofWrapper, ProverJob};
use prover_fri::keys::{AggregationRound, CircuitIdRoundTuple, ProverServiceDataKey};
use prover_fri::setup::{
    get_setup_data, setup_keys_to_load, SetupDataCache, SetupError, SetupLoadMode, SetupSource,
};
use prover_fri::worker::{
    classify_get_job_error, proof_artifacts, JobRequestFailure, Prover, SubmitRequest,
};

fn cache() -> SetupLoadMode<&'static str> {
    let mut c = SetupDataCache::new();
    c.insert(ProverServiceDataKey::new(2, AggregationRound::NodeAggregation), "node");
    c.insert(ProverServiceDataKey::new(4, AggregationRound::BasicCircuits), "basic-4");
    SetupLoadMode::FromMemory(c)
}

#[test]
fn node_aggregation_keys_share_setup() {
    let mode = cache();
    for id in [0u8, 2, 10, 255] {
        let key = ProverServiceDataKey::new(id, AggregationRound::NodeAggregation);
        match get_setup_data(&mode, key) {
            Ok(SetupSource::Cached(d)) => assert_eq!(*d, "node"),
            _ => panic!("expected the shared node setup"),
        }
    }
}

#[test]
fn cache_miss_is_setup_missing() {
    let mode = cache();
    let key = ProverServiceDataKey::new(5, AggregationRound::BasicCircuits);
    assert!(matches!(
        get_setup_data(&mode, key),
        Err(SetupError::SetupMissing { key: k }) if k == key
    ));
    let key = ProverServiceDataKey::new(4, AggregationRound::BasicCircuits);
    assert!(matches!(get_setup_data(&mode, key), Ok(SetupSource::Cached(&"basic-4"))));
}

#[test]
fn from_disk_loads_normalized_key() {
    let mode: SetupLoadMode<&str> = SetupLoadMode::FromDisk;
    let key = ProverServiceDataKey::new(9, AggregationRound::NodeAggregation);
    assert!(matches!(
        get_setup_data(&mode, key),
        Ok(SetupSource::Load(k)) if k == ProverServiceDataKey::new(2, AggregationRound::NodeAggregation)
    ));
}

#[test]
fn group_keys_are_taken_in_order() {
    let list = vec![CircuitIdRoundTuple::new(1, 0), CircuitIdRoundTuple::new(3, 2)];
    let keys = setup_keys_to_load(Some(&list)).unwrap();
    assert_eq!(
        keys,
        vec![
            ProverServiceDataKey::new(1, AggregationRound::BasicCircuits),
            ProverServiceDataKey::new(3, AggregationRound::NodeAggregation),
        ]
    );
    assert_eq!(setup_keys_to_load(None), Err(SetupError::NoCircuitsForGroup));
    let bad = vec![CircuitIdRoundTuple::new(1, 0), CircuitIdRoundTuple::new(6, 7)];
    assert_eq!(
        setup_keys_to_load(Some(&bad)),
        Err(SetupError::InvalidRound { circuit_id: 6, aggregation_round: 7 })
    );
}

#[test]
fn get_job_errors_are_classified() {
    assert_eq!(
        classify_get_job_error(NO_JOB_AVAILABLE_ERROR_CODE),
        JobRequestFailure::NoJobAvailable
    );
    assert_eq!(
        classify_get_job_error(-32603),
        JobRequestFailure::Failed { code: -32603 }
    );
}

#[test]
fn prover_prepares_and_reports_a_job() {
    let prover = Prover::new(cache(), vec![CircuitIdRoundTuple::new(4, 0)]);
    let job: ProverJob<&str, &str> = ProverJob {
        block_number: 12,
        job_id: 42,
        circuit_wrapper: CircuitWrapper::Base("c"),
        setup_data_key: ProverServiceDataKey::new(4, AggregationRound::BasicCircuits),
        request_id: 3,
    };
    assert!(matches!(prover.setup_for(&job), Ok(SetupSource::Cached(&"basic-4"))));
    assert_eq!(prover.layer_for(&job), CircuitLayer::Base);
    let arts = proof_artifacts(&job, FriProofWrapper::<u8, u8>::Base { circuit_type: 4, proof: 1 });
    assert_eq!((arts.block_number, arts.job_id, arts.request_id), (12, 42, 3));
    let req = SubmitRequest::new("w1".to_string(), arts);
    assert_eq!(req.username, "w1");
    assert_eq!(req.proof_artifact.job_id, 42);
}
