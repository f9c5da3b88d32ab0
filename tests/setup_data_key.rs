use prover_fri::keys::{
    get_setup_data_key, setup_metadata_to_setup_data_key, AggregationRound, CircuitIdRoundTuple,
    ProverServiceDataKey, NODE_LAYER_CIRCUIT_ID,
};

#[test]
fn test_get_setup_data_key_for_node_agg_key() {
    let key = ProverServiceDataKey {
        circuit_id: 10,
        round: AggregationRound::NodeAggregation,
    };
    let expected = ProverServiceDataKey {
        circuit_id: NODE_LAYER_CIRCUIT_ID,
        round: AggregationRound::NodeAggregation,
    };

    let result = get_setup_data_key(key);

    // the circuit id has been changed to the node layer's id
    assert_eq!(expected, result);
}

#[test]
fn test_get_setup_data_key_for_non_node_agg_key() {
    let key = ProverServiceDataKey {
        circuit_id: 10,
        round: AggregationRound::BasicCircuits,
    };

    let result = get_setup_data_key(key.clone());

    // the key has remained the same
    assert_eq!(key, result);
}

#[test]
fn node_layer_circuit_id_is_two() {
    assert_eq!(NODE_LAYER_CIRCUIT_ID, 2);
}

#[test]
fn non_node_rounds_are_left_alone() {
    for round in [
        AggregationRound::BasicCircuits,
        AggregationRound::LeafAggregation,
        AggregationRound::RecursionTip,
        AggregationRound::Scheduler,
    ] {
        let key = ProverServiceDataKey::new(7, round);
        assert_eq!(get_setup_data_key(key), key);
    }
}

#[test]
fn round_numbers_round_trip() {
    for n in 0u8..5 {
        let round = AggregationRound::from_number(n).unwrap();
        assert_eq!(round.number(), n);
    }
    assert_eq!(AggregationRound::from_number(5), None);
    assert_eq!(AggregationRound::from_number(255), None);
}

#[test]
fn setup_metadata_maps_round_number() {
    let key = setup_metadata_to_setup_data_key(&CircuitIdRoundTuple::new(3, 1)).unwrap();
    assert_eq!(key, ProverServiceDataKey::new(3, AggregationRound::LeafAggregation));
    assert_eq!(setup_metadata_to_setup_data_key(&CircuitIdRoundTuple::new(3, 9)), None);
}
