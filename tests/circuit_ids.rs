use prover_fri::circuit_ids::{
    parse_circuit_ids_rounds, resolve_circuit_ids_rounds, CircuitIdsRoundsError, CircuitSelection,
};
use prover_fri::keys::CircuitIdRoundTuple;

fn pairs(v: &[(u8, u8)]) -> Vec<CircuitIdRoundTuple> {
    v.iter().map(|&(a, b)| CircuitIdRoundTuple::new(a, b)).collect()
}

#[test]
fn parses_the_default_pair() {
    assert_eq!(parse_circuit_ids_rounds("(1,0)"), Ok(pairs(&[(1, 0)])));
}

#[test]
fn parses_a_list_of_pairs() {
    assert_eq!(
        parse_circuit_ids_rounds("(1,0),(2,0),(255,4)"),
        Ok(pairs(&[(1, 0), (2, 0), (255, 4)]))
    );
}

#[test]
fn tolerates_whitespace_around_numbers() {
    assert_eq!(parse_circuit_ids_rounds("( 4 ,\t0 )"), Ok(pairs(&[(4, 0)])));
    assert_eq!(parse_circuit_ids_rounds("(+7,2)"), Ok(pairs(&[(7, 2)])));
}

#[test]
fn round_is_not_checked_when_reading() {
    assert_eq!(parse_circuit_ids_rounds("(3,9)"), Ok(pairs(&[(3, 9)])));
}

#[test]
fn circuit_id_overflow_is_an_error() {
    assert_eq!(
        parse_circuit_ids_rounds("(256,0)"),
        Err(CircuitIdsRoundsError::InvalidCircuitId)
    );
    assert_eq!(
        parse_circuit_ids_rounds("(99999999999,0)"),
        Err(CircuitIdsRoundsError::InvalidCircuitId)
    );
}

#[test]
fn round_overflow_is_an_error() {
    assert_eq!(
        parse_circuit_ids_rounds("(1,0),(2,300)"),
        Err(CircuitIdsRoundsError::InvalidRound)
    );
}

#[test]
fn non_numbers_are_errors() {
    assert_eq!(
        parse_circuit_ids_rounds("(a,0)"),
        Err(CircuitIdsRoundsError::InvalidCircuitId)
    );
    assert_eq!(
        parse_circuit_ids_rounds("(1,-1)"),
        Err(CircuitIdsRoundsError::InvalidRound)
    );
    assert_eq!(
        parse_circuit_ids_rounds("(,0)"),
        Err(CircuitIdsRoundsError::InvalidCircuitId)
    );
}

#[test]
fn tuple_needs_exactly_two_parts() {
    assert_eq!(
        parse_circuit_ids_rounds("(1,0,2)"),
        Err(CircuitIdsRoundsError::InvalidTupleFormat)
    );
    assert_eq!(
        parse_circuit_ids_rounds("(1)"),
        Err(CircuitIdsRoundsError::InvalidTupleFormat)
    );
    assert_eq!(
        parse_circuit_ids_rounds(""),
        Err(CircuitIdsRoundsError::InvalidTupleFormat)
    );
    // pairs need a comma between them
    assert_eq!(
        parse_circuit_ids_rounds("(1,0) (2,0)"),
        Err(CircuitIdsRoundsError::InvalidTupleFormat)
    );
}

#[test]
fn first_failing_tuple_decides_the_error() {
    assert_eq!(
        parse_circuit_ids_rounds("(x,0),(1,2,3)"),
        Err(CircuitIdsRoundsError::InvalidCircuitId)
    );
}

#[test]
fn all_selects_the_whole_group() {
    assert!(matches!(
        resolve_circuit_ids_rounds("all"),
        Ok(CircuitSelection::AllOfGroup)
    ));
    match resolve_circuit_ids_rounds("(1,0)") {
        Ok(CircuitSelection::Listed(v)) => assert_eq!(v, pairs(&[(1, 0)])),
        _ => panic!("expected a listed selection"),
    }
    assert_eq!(
        resolve_circuit_ids_rounds("al").err(),
        Some(CircuitIdsRoundsError::InvalidTupleFormat)
    );
}

#[test]
fn tolerates_whitespace_between_pairs() {
    assert_eq!(
        parse_circuit_ids_rounds("(1, 0), (2, 1)"),
        Ok(pairs(&[(1, 0), (2, 1)]))
    );
    assert_eq!(
        parse_circuit_ids_rounds("(1,0) ,\t( 2 ,1 )"),
        Ok(pairs(&[(1, 0), (2, 1)]))
    );
    assert_eq!(parse_circuit_ids_rounds(" (1,0) "), Ok(pairs(&[(1, 0)])));
    assert_eq!(
        parse_circuit_ids_rounds(" (3,0) , (4,0) , (5,2) "),
        Ok(pairs(&[(3, 0), (4, 0), (5, 2)]))
    );
}
