use vstd::prelude::*;

use crate::coordinator::NO_JOB_AVAILABLE_ERROR_CODE;
use crate::jobs::{CircuitLayer, FriProofWrapper, ProverArtifacts, ProverJob};
use crate::keys::CircuitIdRoundTuple;
use crate::setup::{get_setup_data, setup_lookup, SetupError, SetupLoadMode, SetupSource};

verus! {

/// Why a worker's cycle ended without a job.
#[derive(Clone, Copy, Debug, PartialEq, Eq, Structural)]
pub enum JobRequestFailure {
    /// The coordinator has no job for the worker's filter; back off and retry later.
    NoJobAvailable,
    /// Any other error, with its JSON-RPC code.
    Failed { code: i32 },
}

/// Reads the JSON-RPC error code with which `get_job` failed.
pub fn classify_get_job_error(code: i32) -> (r: JobRequestFailure)
    ensures
        code == NO_JOB_AVAILABLE_ERROR_CODE ==> r == JobRequestFailure::NoJobAvailable,
        code != NO_JOB_AVAILABLE_ERROR_CODE ==> r == (JobRequestFailure::Failed { code }),
{
    if code == NO_JOB_AVAILABLE_ERROR_CODE {
        JobRequestFailure::NoJobAvailable
    } else {
        JobRequestFailure::Failed { code }
    }
}

/// The worker's prover: where it takes setup data from, and the pairs it asks for.
pub struct Prover<D> {
    pub setup_load_mode: SetupLoadMode<D>,
    pub circuit_ids_for_round_to_be_proven: Vec<CircuitIdRoundTuple>,
}

/// The body that a worker submits: who it is, and what it proved.
#[derive(Debug)]
pub struct SubmitRequest<P, Q> {
    pub username: String,
    pub proof_artifact: ProverArtifacts<P, Q>,
}

impl<D> Prover<D> {
    pub fn new(
        setup_load_mode: SetupLoadMode<D>,
        circuit_ids_for_round_to_be_proven: Vec<CircuitIdRoundTuple>,
    ) -> (r: Self)
        ensures
            r.setup_load_mode == setup_load_mode,
            r.circuit_ids_for_round_to_be_proven == circuit_ids_for_round_to_be_proven,
    {
        Prover { setup_load_mode, circuit_ids_for_round_to_be_proven }
    }

    /// The setup data for proving `job`, looked up under its normalized key;
    /// a cache miss ends the cycle.
    pub fn setup_for<'a, B, R>(&'a self, job: &ProverJob<B, R>) -> (r: Result<SetupSource<'a, D>, SetupError>)
        ensures
            match (r, setup_lookup(self.setup_load_mode, job.setup_data_key)) {
                (Ok(SetupSource::Cached(a)), Ok(SetupSource::Cached(b))) => *a == *b,
                (Ok(SetupSource::Load(a)), Ok(SetupSource::Load(b))) => a == b,
                (Err(a), Err(b)) => a == b,
                _ => false,
            },
    {
        get_setup_data(&self.setup_load_mode, job.setup_data_key)
    }

    /// The layer of prover that `job` needs: base circuits get a base-layer
    /// proof, recursive circuits a recursion-layer proof.
    pub fn layer_for<B, R>(&self, job: &ProverJob<B, R>) -> (r: CircuitLayer)
        ensures
            r == job.circuit_wrapper.layer_spec(),
    {
        job.circuit_wrapper.layer()
    }
}

/// The artifacts that report `proof_wrapper` for `job`: the job's block
/// number, job id and request id go with the proof.
pub fn proof_artifacts<B, R, P, Q>(job: &ProverJob<B, R>, proof_wrapper: FriProofWrapper<P, Q>) -> (r:
    ProverArtifacts<P, Q>)
    ensures
        r.block_number == job.block_number,
        r.job_id == job.job_id,
        r.request_id == job.request_id,
        r.proof_wrapper == proof_wrapper,
{
    ProverArtifacts::new(job.block_number, proof_wrapper, job.job_id, job.request_id)
}

impl<P, Q> SubmitRequest<P, Q> {
    pub fn new(username: String, proof_artifact: ProverArtifacts<P, Q>) -> (r: Self)
        ensures
            r.username == username,
            r.proof_artifact == proof_artifact,
    {
        SubmitRequest { username, proof_artifact }
    }
}

} // verus!
