use prover_fri::coordinator::{
    JobRegistry, RpcError, INTERNAL_ERROR_CODE, NO_JOB_AVAILABLE_ERROR_CODE, NO_JOB_ID_ERROR_CODE,
};
use prover_fri::jobs::{CircuitWrapper, ProverJob};
use prover_fri::keys::{AggregationRound, CircuitIdRoundTuple, ProverServiceDataKey};

type Job = ProverJob<&'static str, &'static str>;

fn base_job(job_id: u32, request_id: u32, circuit_id: u8) -> Job {
    ProverJob {
        block_number: 7,
        job_id,
        circuit_wrapper: CircuitWrapper::Base("circuit"),
        setup_data_key: ProverServiceDataKey::new(circuit_id, AggregationRound::BasicCircuits),
        request_id,
    }
}

fn filter(v: &[(u8, u8)]) -> Vec<CircuitIdRoundTuple> {
    v.iter().map(|&(a, b)| CircuitIdRoundTuple::new(a, b)).collect()
}

#[test]
fn empty_queue_gives_no_job_available() {
    let mut reg: JobRegistry<&str, &str> = JobRegistry::new();
    let id = reg.next_request_id();
    let r = reg.get_job(id, &filter(&[(1, 0)]), Ok(None), 0);
    assert_eq!(r, Err(RpcError::NoJobAvailable));
    let e = r.unwrap_err();
    assert_eq!(e.code(), 1001);
    assert_eq!(e.message(), "No job is currently available.");
    assert_eq!(e.data(), None);
    assert_eq!(reg.in_flight_count(), 0);
}

#[test]
fn leased_job_is_in_flight_until_submitted() {
    let mut reg = JobRegistry::new();
    let req = reg.next_request_id();
    assert_eq!(req, 0);
    let r = reg.get_job(req, &filter(&[(4, 0)]), Ok(Some(base_job(42, req, 4))), 1000);
    assert_eq!(r, Ok(42));
    assert!(reg.is_leased(42));
    let lease = reg.submit_result(42).ok().unwrap();
    assert_eq!(lease.job.job_id, 42);
    assert_eq!(lease.job.request_id, 0);
    assert_eq!(lease.started_at_ms, 1000);
    assert!(!reg.is_leased(42));
    assert_eq!(reg.in_flight_count(), 0);
}

#[test]
fn two_requests_get_ids_zero_and_one() {
    let mut reg = JobRegistry::new();
    let f = filter(&[(1, 0), (2, 0)]);
    let a = reg.next_request_id();
    let b = reg.next_request_id();
    assert_eq!((a, b), (0, 1));
    assert_eq!(reg.get_job(b, &f, Ok(Some(base_job(10, b, 2))), 5), Ok(10));
    assert_eq!(reg.get_job(a, &f, Ok(Some(base_job(11, a, 1))), 6), Ok(11));
    assert!(reg.is_leased(10));
    assert!(reg.is_leased(11));
    assert_eq!(reg.in_flight_count(), 2);
}

#[test]
fn request_ids_count_up() {
    let mut reg: JobRegistry<(), ()> = JobRegistry::new();
    for expected in 0u32..100 {
        assert_eq!(reg.next_request_id(), expected);
    }
}

#[test]
fn unknown_job_id_is_refused() {
    let mut reg: JobRegistry<&str, &str> = JobRegistry::new();
    let r = reg.submit_result(999);
    let e = r.err().unwrap();
    assert_eq!(e, RpcError::UnknownJobId { job_id: 999 });
    assert_eq!(e.code(), 1002);
    assert_eq!(e.message(), "There is no job with your job id");
    assert_eq!(e.data(), Some("Job id = 999".to_string()));
}

#[test]
fn second_submit_is_refused() {
    let mut reg = JobRegistry::new();
    let req = reg.next_request_id();
    reg.get_job(req, &filter(&[(4, 0)]), Ok(Some(base_job(5, req, 4))), 0).unwrap();
    assert!(reg.submit_result(5).is_ok());
    assert_eq!(
        reg.submit_result(5).err(),
        Some(RpcError::UnknownJobId { job_id: 5 })
    );
}

#[test]
fn queue_failure_is_an_internal_error() {
    let mut reg: JobRegistry<&str, &str> = JobRegistry::new();
    let r = reg.get_job(0, &filter(&[(1, 0)]), Err(()), 0);
    assert_eq!(r, Err(RpcError::Internal));
    assert_eq!(RpcError::Internal.code(), -32603);
    assert_eq!(RpcError::Internal.message(), "Internal error");
    assert_eq!(reg.in_flight_count(), 0);
}

#[test]
fn job_outside_filter_is_not_leased() {
    let mut reg = JobRegistry::new();
    let r = reg.get_job(0, &filter(&[(1, 0)]), Ok(Some(base_job(3, 0, 2))), 0);
    assert_eq!(r, Err(RpcError::Internal));
    assert!(!reg.is_leased(3));
    // same circuit id, other round
    let mut job = base_job(4, 1, 1);
    job.setup_data_key.round = AggregationRound::LeafAggregation;
    assert_eq!(
        reg.get_job(1, &filter(&[(1, 0)]), Ok(Some(job)), 0),
        Err(RpcError::Internal)
    );
}

#[test]
fn same_job_id_twice_overwrites() {
    let mut reg = JobRegistry::new();
    let f = filter(&[(4, 0)]);
    reg.get_job(0, &f, Ok(Some(base_job(8, 0, 4))), 1).unwrap();
    reg.get_job(1, &f, Ok(Some(base_job(8, 1, 4))), 2).unwrap();
    assert_eq!(reg.in_flight_count(), 1);
    let lease = reg.submit_result(8).ok().unwrap();
    assert_eq!(lease.job.request_id, 1);
    assert_eq!(lease.started_at_ms, 2);
}

#[test]
fn error_codes() {
    assert_eq!(NO_JOB_AVAILABLE_ERROR_CODE, 1001);
    assert_eq!(NO_JOB_ID_ERROR_CODE, 1002);
    assert_eq!(INTERNAL_ERROR_CODE, -32603);
    assert_eq!(
        RpcError::UnknownJobId { job_id: 0 }.data(),
        Some("Job id = 0".to_string())
    );
    assert_eq!(
        RpcError::UnknownJobId { job_id: u32::MAX }.data(),
        Some("Job id = 4294967295".to_string())
    );
}

#[test]
fn leased_job_carries_the_drawn_request_id() {
    let mut reg = JobRegistry::new();
    let f = filter(&[(4, 0)]);
    let _ = reg.next_request_id();
    let req = reg.next_request_id();
    assert_eq!(req, 1);
    // the queue's copy names another request id; the lease carries the drawn one
    reg.get_job(req, &f, Ok(Some(base_job(20, 77, 4))), 0).unwrap();
    let lease = reg.submit_result(20).ok().unwrap();
    assert_eq!(lease.job.request_id, 1);
}
