use vstd::prelude::*;

use crate::keys::ProverServiceDataKey;

verus! {

/// The two layers of the proving pipeline.
#[derive(Clone, Copy, Debug, PartialEq, Eq, Hash, Structural)]
pub enum CircuitLayer {
    Base,
    Recursive,
}

/// A circuit to be proven: a base-layer circuit or a recursion-layer circuit.
/// The circuits themselves are opaque here.
#[derive(Clone, Debug)]
pub enum CircuitWrapper<B, R> {
    Base(B),
    Recursive(R),
}

/// A proof, tagged with its layer and with the numeric type of the circuit
/// that it proves. The proofs themselves are opaque here.
#[derive(Clone, Debug)]
pub enum FriProofWrapper<B, R> {
    Base { circuit_type: u8, proof: B },
    Recursive { circuit_type: u8, proof: R },
}

impl<B, R> CircuitWrapper<B, R> {
    pub open spec fn layer_spec(&self) -> CircuitLayer {
        match self {
            CircuitWrapper::Base(_) => CircuitLayer::Base,
            CircuitWrapper::Recursive(_) => CircuitLayer::Recursive,
        }
    }

    /// The layer of this circuit.
    pub fn layer(&self) -> (r: CircuitLayer)
        ensures
            r == self.layer_spec(),
    {
        match self {
            CircuitWrapper::Base(_) => CircuitLayer::Base,
            CircuitWrapper::Recursive(_) => CircuitLayer::Recursive,
        }
    }
}

impl<B, R> FriProofWrapper<B, R> {
    pub open spec fn layer_spec(&self) -> CircuitLayer {
        match self {
            FriProofWrapper::Base { .. } => CircuitLayer::Base,
            FriProofWrapper::Recursive { .. } => CircuitLayer::Recursive,
        }
    }

    /// A scheduler proof is a recursion-layer proof of the scheduler circuit.
    pub open spec fn is_scheduler_spec(&self) -> bool {
        match self {
            FriProofWrapper::Base { .. } => false,
            FriProofWrapper::Recursive { circuit_type, .. } => *circuit_type
                == crate::keys::SCHEDULER_CIRCUIT_ID,
        }
    }

    /// The layer of this proof.
    pub fn layer(&self) -> (r: CircuitLayer)
        ensures
            r == self.layer_spec(),
    {
        match self {
            FriProofWrapper::Base { .. } => CircuitLayer::Base,
            FriProofWrapper::Recursive { .. } => CircuitLayer::Recursive,
        }
    }

    /// Whether this is the scheduler proof, the publishable top of recursion.
    pub fn is_scheduler_proof(&self) -> (r: bool)
        ensures
            r == self.is_scheduler_spec(),
    {
        match self {
            FriProofWrapper::Base { .. } => false,
            FriProofWrapper::Recursive { circuit_type, .. } => *circuit_type
                == crate::keys::SCHEDULER_CIRCUIT_ID,
        }
    }
}

/// A work item that the coordinator leases to a worker.
#[derive(Clone, Debug)]
pub struct ProverJob<B, R> {
    pub block_number: u32,
    pub job_id: u32,
    pub circuit_wrapper: CircuitWrapper<B, R>,
    pub setup_data_key: ProverServiceDataKey,
    pub request_id: u32,
}

/// What a worker returns for a job: the proof and the ids that tie it to the job.
#[derive(Clone, Debug)]
pub struct ProverArtifacts<B, R> {
    pub block_number: u32,
    pub proof_wrapper: FriProofWrapper<B, R>,
    pub job_id: u32,
    pub request_id: u32,
}

impl<B, R> ProverArtifacts<B, R> {
    pub fn new(block_number: u32, proof_wrapper: FriProofWrapper<B, R>, job_id: u32, request_id: u32) -> (r:
        ProverArtifacts<B, R>)
        ensures
            r.block_number == block_number,
            r.proof_wrapper == proof_wrapper,
            r.job_id == job_id,
            r.request_id == request_id,
    {
        ProverArtifacts { block_number, proof_wrapper, job_id, request_id }
    }
}

} // verus!
