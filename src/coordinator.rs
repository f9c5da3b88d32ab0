use std::collections::HashMap;

use vstd::prelude::*;

use crate::jobs::ProverJob;
use crate::keys::{filter_contains, filter_names, CircuitIdRoundTuple};
use crate::text::{decimal, push_decimal};

verus! {

broadcast use vstd::std_specs::hash::group_hash_axioms;

/// JSON-RPC error code: no job matching the caller's filter is queued.
pub const NO_JOB_AVAILABLE_ERROR_CODE: i32 = 1001;

/// JSON-RPC error code: the submitted job id holds no lease.
pub const NO_JOB_ID_ERROR_CODE: i32 = 1002;

/// Standard JSON-RPC code of an internal error.
pub const INTERNAL_ERROR_CODE: i32 = -32603;

/// Number of distinct request ids; the counter wraps after that many leases.
pub const REQUEST_ID_SPACE: u64 = 0x1_0000_0000;

/// A failure that the coordinator reports to a worker.
#[derive(Clone, Copy, Debug, PartialEq, Eq, Structural)]
pub enum RpcError {
    /// No queued job matches the caller's filter.
    NoJobAvailable,
    /// The submitted artifact names a job that holds no lease.
    UnknownJobId { job_id: u32 },
    /// The job queue failed, or handed out a job outside the caller's filter.
    Internal,
}

/// The data of an unknown-job-id error: `Job id = <job_id>`.
pub open spec fn unknown_job_data(job_id: u32) -> Seq<char> {
    "Job id = "@ + decimal(job_id as nat)
}

impl RpcError {
    /// The JSON-RPC error code.
    pub fn code(&self) -> (r: i32)
        ensures
            r == match self {
                RpcError::NoJobAvailable => NO_JOB_AVAILABLE_ERROR_CODE,
                RpcError::UnknownJobId { .. } => NO_JOB_ID_ERROR_CODE,
                RpcError::Internal => INTERNAL_ERROR_CODE,
            },
    {
        match self {
            RpcError::NoJobAvailable => NO_JOB_AVAILABLE_ERROR_CODE,
            RpcError::UnknownJobId { .. } => NO_JOB_ID_ERROR_CODE,
            RpcError::Internal => INTERNAL_ERROR_CODE,
        }
    }

    /// The JSON-RPC error message.
    pub fn message(&self) -> (r: &'static str)
        ensures
            r@ == match self {
                RpcError::NoJobAvailable => "No job is currently available."@,
                RpcError::UnknownJobId { .. } => "There is no job with your job id"@,
                RpcError::Internal => "Internal error"@,
            },
    {
        match self {
            RpcError::NoJobAvailable => "No job is currently available.",
            RpcError::UnknownJobId { .. } => "There is no job with your job id",
            RpcError::Internal => "Internal error",
        }
    }

    /// The JSON-RPC error data, if the error carries any.
    pub fn data(&self) -> (r: Option<String>)
        ensures
            match self {
                RpcError::UnknownJobId { job_id } => r.is_some() && r.unwrap()@ == unknown_job_data(
                    *job_id,
                ),
                _ => r.is_none(),
            },
    {
        match self {
            RpcError::UnknownJobId { job_id } => {
                let mut s = String::from_str("Job id = ");
                push_decimal(&mut s, *job_id);
                Some(s)
            },
            _ => None,
        }
    }
}

/// The request id handed out to the call that draws with `ordinal` ids drawn before it.
pub open spec fn request_id_for(ordinal: nat) -> nat {
    ordinal % (REQUEST_ID_SPACE as nat)
}

/// Whether the job queue handed out a job that the caller's filter names.
pub open spec fn fetched_in_filter<B, R>(
    filter: Seq<CircuitIdRoundTuple>,
    fetched: Result<Option<ProverJob<B, R>>, ()>,
) -> bool {
    match fetched {
        Ok(Some(job)) => filter_names(filter, job.setup_data_key.circuit_id, job.setup_data_key.round),
        _ => false,
    }
}

/// The answer to `get_job` once the queue has answered `fetched`: the job's id
/// when the queue handed out a job that the filter names; `NoJobAvailable` on an
/// empty queue; `Internal` on a queue failure or a job outside the filter.
pub open spec fn get_job_outcome<B, R>(
    filter: Seq<CircuitIdRoundTuple>,
    fetched: Result<Option<ProverJob<B, R>>, ()>,
) -> Result<u32, RpcError> {
    match fetched {
        Ok(Some(job)) => if fetched_in_filter(filter, fetched) {
            Ok(job.job_id)
        } else {
            Err(RpcError::Internal)
        },
        Ok(None) => Err(RpcError::NoJobAvailable),
        Err(()) => Err(RpcError::Internal),
    }
}

/// The job as it is leased: the queue's job, carrying the request id drawn
/// for the call that leased it.
pub open spec fn stamped<B, R>(job: ProverJob<B, R>, request_id: u32) -> ProverJob<B, R> {
    ProverJob { request_id, ..job }
}

/// The leases after `get_job` with `request_id`: a job that the filter names is
/// leased from `started_at_ms` on, stamped with `request_id` (replacing any
/// lease on the same job id); in every other case the leases stay as they were.
pub open spec fn leases_after_get_job<B, R>(
    leases: Map<u32, Lease<B, R>>,
    request_id: u32,
    filter: Seq<CircuitIdRoundTuple>,
    fetched: Result<Option<ProverJob<B, R>>, ()>,
    started_at_ms: u64,
) -> Map<u32, Lease<B, R>> {
    match fetched {
        Ok(Some(job)) => if fetched_in_filter(filter, fetched) {
            leases.insert(job.job_id, Lease { job: stamped(job, request_id), started_at_ms })
        } else {
            leases
        },
        _ => leases,
    }
}

/// The leases after `submit_result` for `job_id`, accepted or not: that lease is gone.
pub open spec fn leases_after_submit<B, R>(leases: Map<u32, Lease<B, R>>, job_id: u32) -> Map<
    u32,
    Lease<B, R>,
> {
    leases.remove(job_id)
}

/// Request ids are unique and equal to the arrival ordinal: among the first
/// 2^32 draws, the draw with ordinal `a` gets id `a`, and two draws with
/// different ordinals get different ids.
pub proof fn lemma_request_ids_unique(a: nat, b: nat)
    requires
        a < REQUEST_ID_SPACE,
        b < REQUEST_ID_SPACE,
    ensures
        request_id_for(a) == a,
        a != b ==> request_id_for(a) != request_id_for(b),
{
    vstd::arithmetic::div_mod::lemma_small_mod(a, REQUEST_ID_SPACE as nat);
    vstd::arithmetic::div_mod::lemma_small_mod(b, REQUEST_ID_SPACE as nat);
}

/// The filter is honored: whenever `get_job` answers with a job id, the queue
/// handed out a job that the caller's filter names, and that job is the one
/// leased, carrying the request id drawn for the call.
pub proof fn lemma_get_job_honors_filter<B, R>(
    leases: Map<u32, Lease<B, R>>,
    request_id: u32,
    filter: Seq<CircuitIdRoundTuple>,
    fetched: Result<Option<ProverJob<B, R>>, ()>,
    started_at_ms: u64,
)
    requires
        get_job_outcome(filter, fetched) is Ok,
    ensures
        fetched matches Ok(Some(job)) && filter_names(
            filter,
            job.setup_data_key.circuit_id,
            job.setup_data_key.round,
        ) && get_job_outcome(filter, fetched) == Ok::<u32, RpcError>(job.job_id)
            && leases_after_get_job(leases, request_id, filter, fetched, started_at_ms)[job.job_id].job
            == stamped(job, request_id) && leases_after_get_job(
            leases,
            request_id,
            filter,
            fetched,
            started_at_ms,
        )[job.job_id].job.request_id == request_id,
{
}

/// Lease lifecycle: once `get_job` has returned a job its id is in flight, and
/// after `submit_result` for that id (accepted or refused) it no longer is.
pub proof fn lemma_lease_lifecycle<B, R>(
    leases: Map<u32, Lease<B, R>>,
    request_id: u32,
    filter: Seq<CircuitIdRoundTuple>,
    job: ProverJob<B, R>,
    started_at_ms: u64,
)
    requires
        get_job_outcome(filter, Ok(Some(job))) == Ok::<u32, RpcError>(job.job_id),
    ensures
        leases_after_get_job(leases, request_id, filter, Ok(Some(job)), started_at_ms).contains_key(job.job_id),
        !leases_after_submit(
            leases_after_get_job(leases, request_id, filter, Ok(Some(job)), started_at_ms),
            job.job_id,
        ).contains_key(job.job_id),
        !leases_after_submit(leases, job.job_id).contains_key(job.job_id),
{
}

/// A job on lease to a worker, with the instant (in milliseconds of the
/// coordinator's monotonic clock) at which the lease began.
pub struct Lease<B, R> {
    pub job: ProverJob<B, R>,
    pub started_at_ms: u64,
}

/// A source of request ids: 0, 1, 2, ... in the order they are drawn,
/// wrapping after 2^32 of them.
pub struct RequestCounter {
    next: u32,
    issued: Ghost<nat>,
}

impl RequestCounter {
    #[verifier::type_invariant]
    spec fn next_tracks_issued(&self) -> bool {
        self.next as nat == self.issued@ % (REQUEST_ID_SPACE as nat)
    }

    /// How many ids have been drawn so far.
    pub closed spec fn issued(&self) -> nat {
        self.issued@
    }

    /// A counter whose first id is 0.
    pub fn new() -> (r: Self)
        ensures
            r.issued() == 0,
    {
        RequestCounter { next: 0, issued: Ghost(0) }
    }

    /// Draws the next id: the number of ids drawn before, modulo 2^32.
    pub fn draw(&mut self) -> (id: u32)
        ensures
            id as nat == old(self).issued() % (REQUEST_ID_SPACE as nat),
            final(self).issued() == old(self).issued() + 1,
    {
        proof {
            use_type_invariant(&*self);
        }
        let id = self.next;
        proof {
            let k = REQUEST_ID_SPACE as int;
            let n = self.issued@ as int;
            vstd::arithmetic::div_mod::lemma_add_mod_noop(n, 1, k);
            vstd::arithmetic::div_mod::lemma_small_mod(1, k as nat);
        }
        *self = RequestCounter { next: id.wrapping_add(1), issued: Ghost(self.issued@ + 1) };
        id
    }
}

/// The coordinator's process-wide state: the request-id counter and the
/// registry of jobs in flight, keyed by job id.
pub struct JobRegistry<B, R> {
    counter: RequestCounter,
    in_flight: HashMap<u32, Lease<B, R>>,
}

impl<B, R> JobRegistry<B, R> {
    /// The leases in flight, by job id.
    pub closed spec fn leases(&self) -> Map<u32, Lease<B, R>> {
        self.in_flight@
    }

    /// How many request ids have been handed out so far.
    pub closed spec fn issued(&self) -> nat {
        self.counter.issued()
    }

    /// A registry with no lease, whose first request id will be 0.
    pub fn new() -> (r: Self)
        ensures
            r.leases() == Map::<u32, Lease<B, R>>::empty(),
            r.issued() == 0,
    {
        JobRegistry { counter: RequestCounter::new(), in_flight: HashMap::new() }
    }

    /// Draws the next request id: the number of ids drawn before, modulo 2^32.
    pub fn next_request_id(&mut self) -> (id: u32)
        ensures
            id as nat == request_id_for(old(self).issued()),
            final(self).issued() == old(self).issued() + 1,
            final(self).leases() == old(self).leases(),
    {
        self.counter.draw()
    }

    /// Whether a lease on `job_id` is in flight.
    pub fn is_leased(&self, job_id: u32) -> (r: bool)
        ensures
            r == self.leases().contains_key(job_id),
    {
        self.in_flight.contains_key(&job_id)
    }

    /// Number of leases in flight.
    pub fn in_flight_count(&self) -> (r: usize)
        ensures
            r == self.leases().len(),
    {
        self.in_flight.len()
    }

    /// Completes the `get_job` call that drew `request_id`, once the job queue
    /// has answered with `fetched` for the caller's `filter` (see
    /// `get_job_outcome` and `leases_after_get_job`).
    pub fn get_job(
        &mut self,
        request_id: u32,
        filter: &Vec<CircuitIdRoundTuple>,
        fetched: Result<Option<ProverJob<B, R>>, ()>,
        started_at_ms: u64,
    ) -> (r: Result<u32, RpcError>)
        ensures
            r == get_job_outcome(filter@, fetched),
            final(self).leases() == leases_after_get_job(
                old(self).leases(),
                request_id,
                filter@,
                fetched,
                started_at_ms,
            ),
            final(self).issued() == old(self).issued(),
    {
        match fetched {
            Err(()) => Err(RpcError::Internal),
            Ok(None) => Err(RpcError::NoJobAvailable),
            Ok(Some(mut job)) => {
                if filter_contains(filter, job.setup_data_key.circuit_id, job.setup_data_key.round) {
                    let job_id = job.job_id;
                    job.request_id = request_id;
                    self.in_flight.insert(job_id, Lease { job, started_at_ms });
                    Ok(job_id)
                } else {
                    Err(RpcError::Internal)
                }
            },
        }
    }

    /// Handles `submit_result` for an artifact naming `job_id`: the lease on that
    /// id is removed and returned, so that its proof can be verified; without a
    /// lease the call fails with `UnknownJobId` and nothing is verified.
    pub fn submit_result(&mut self, job_id: u32) -> (r: Result<Lease<B, R>, RpcError>)
        ensures
            final(self).issued() == old(self).issued(),
            final(self).leases() == leases_after_submit(old(self).leases(), job_id),
            match r {
                Ok(lease) => old(self).leases().contains_key(job_id) && lease == old(
                    self,
                ).leases()[job_id],
                Err(e) => !old(self).leases().contains_key(job_id) && e == RpcError::UnknownJobId {
                    job_id,
                },
            },
    {
        match self.in_flight.remove(&job_id) {
            Some(lease) => Ok(lease),
            None => Err(RpcError::UnknownJobId { job_id }),
        }
    }
}

} // verus!
