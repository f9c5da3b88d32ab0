use vstd::prelude::*;

use crate::jobs::{CircuitLayer, ProverArtifacts, ProverJob};

verus! {

/// Why an accepted-for-verification proof was dropped without archival.
#[derive(Clone, Copy, Debug, PartialEq, Eq, Structural)]
pub enum Rejection {
    /// The proof's layer differs from the layer of the leased circuit.
    LayerMismatch,
    /// The verification key for the job's circuit could not be loaded.
    KeyUnavailable,
    /// The proof did not verify.
    InvalidProof,
}

/// Why a verified proof could not be archived.
#[derive(Clone, Copy, Debug, PartialEq, Eq, Structural)]
pub enum ArchiveFailure {
    ConnectionFailed,
    PublicUploadFailed,
    PrivateUploadFailed,
    CommitFailed,
}

/// How the settlement of a submitted proof ended.
#[derive(Clone, Copy, Debug, PartialEq, Eq, Structural)]
pub enum SettlementOutcome {
    Rejected(Rejection),
    /// The proof verified; `archive_failure` says whether archival failed.
    Accepted { archive_failure: Option<ArchiveFailure> },
}

/// The request that the settlement is waiting on.
#[derive(Clone, Copy, Debug, PartialEq, Eq, Structural)]
pub enum Stage {
    AwaitKey,
    AwaitVerdict,
    AwaitConnection,
    AwaitPublicUpload,
    AwaitPrivateUpload,
    AwaitCommit,
    AwaitAudit,
    Finished,
}

/// What the settlement asks its driver to do next.
#[derive(Debug)]
pub enum SettlementAction {
    /// Load the verification key of `layer` for circuit `circuit_id`.
    LoadVerificationKey { layer: CircuitLayer, circuit_id: u8 },
    /// Verify the submitted proof against the loaded key and the leased circuit.
    Verify,
    /// Open a database connection for the archival.
    OpenConnection,
    /// Upload the proof to the public blob store under `block_number`.
    StorePublic { block_number: u32 },
    /// Upload the proof to the private blob store under `job_id`.
    StorePrivate { job_id: u32 },
    /// In one transaction: mark job `job_id` complete with `blob_url` and the time
    /// elapsed since `started_at_ms`; when `compression_block` is set, enqueue a
    /// compression job for that block and `blob_url`; then commit.
    Commit { job_id: u32, blob_url: String, started_at_ms: u64, compression_block: Option<u32> },
    /// Append the worker's audit line (see `audit_line`).
    AppendAudit,
    /// The settlement is over.
    Finish(SettlementOutcome),
    /// The event did not answer the outstanding request; nothing changed.
    Ignored,
}

/// What the driver reports back.
#[derive(Debug)]
pub enum SettlementEvent {
    KeyLoaded(bool),
    Verified(bool),
    ConnectionOpened(bool),
    PublicStored(bool),
    /// The private blob URL, or `None` when the upload failed.
    PrivateStored(Option<String>),
    Committed(bool),
    AuditWritten,
}

/// The settlement of one submitted proof: verification against the job's key,
/// then archival, then the audit line. It is driven by its owner, which performs
/// each action and reports its result as an event.
#[derive(Clone, Copy, Debug, PartialEq, Eq, Structural)]
pub struct Settlement {
    pub stage: Stage,
    pub job_id: u32,
    /// The block number that the worker reported with the proof.
    pub block_number: u32,
    pub job_layer: CircuitLayer,
    pub proof_layer: CircuitLayer,
    pub is_scheduler: bool,
    /// Circuit id of the job's setup-data key, which selects the verification key.
    pub key_circuit_id: u8,
    pub started_at_ms: u64,
    pub save_public: bool,
    pub verified: bool,
    pub public_stored: bool,
    pub rejection: Option<Rejection>,
    pub archive_failure: Option<ArchiveFailure>,
}

/// Whether a scheduler proof must also go to the public store.
pub open spec fn dual_write(s: Settlement) -> bool {
    s.is_scheduler && s.save_public
}

/// The outcome recorded in a settlement.
pub open spec fn outcome_of(s: Settlement) -> SettlementOutcome {
    match s.rejection {
        Some(r) => SettlementOutcome::Rejected(r),
        None => SettlementOutcome::Accepted { archive_failure: s.archive_failure },
    }
}

/// Ends the settlement after archival, successful or not, with the audit line.
pub open spec fn to_audit(s: Settlement, failure: Option<ArchiveFailure>) -> (Settlement, SettlementAction) {
    (Settlement { stage: Stage::AwaitAudit, archive_failure: failure, ..s }, SettlementAction::AppendAudit)
}

/// Ends the settlement with a rejection.
pub open spec fn to_rejected(s: Settlement, why: Rejection) -> (Settlement, SettlementAction) {
    (
        Settlement { stage: Stage::Finished, rejection: Some(why), ..s },
        SettlementAction::Finish(SettlementOutcome::Rejected(why)),
    )
}

/// The settlement's transition table.
pub open spec fn settle_next(s: Settlement, e: SettlementEvent) -> (Settlement, SettlementAction) {
    match (s.stage, e) {
        (Stage::AwaitKey, SettlementEvent::KeyLoaded(ok)) => if ok {
            (Settlement { stage: Stage::AwaitVerdict, ..s }, SettlementAction::Verify)
        } else {
            to_rejected(s, Rejection::KeyUnavailable)
        },
        (Stage::AwaitVerdict, SettlementEvent::Verified(valid)) => if valid {
            (
                Settlement { stage: Stage::AwaitConnection, verified: true, ..s },
                SettlementAction::OpenConnection,
            )
        } else {
            to_rejected(s, Rejection::InvalidProof)
        },
        (Stage::AwaitConnection, SettlementEvent::ConnectionOpened(ok)) => if !ok {
            to_audit(s, Some(ArchiveFailure::ConnectionFailed))
        } else if dual_write(s) {
            (
                Settlement { stage: Stage::AwaitPublicUpload, ..s },
                SettlementAction::StorePublic { block_number: s.block_number },
            )
        } else {
            (
                Settlement { stage: Stage::AwaitPrivateUpload, ..s },
                SettlementAction::StorePrivate { job_id: s.job_id },
            )
        },
        (Stage::AwaitPublicUpload, SettlementEvent::PublicStored(ok)) => if ok {
            (
                Settlement { stage: Stage::AwaitPrivateUpload, public_stored: true, ..s },
                SettlementAction::StorePrivate { job_id: s.job_id },
            )
        } else {
            to_audit(s, Some(ArchiveFailure::PublicUploadFailed))
        },
        (Stage::AwaitPrivateUpload, SettlementEvent::PrivateStored(url)) => match url {
            Some(blob_url) => (
                Settlement { stage: Stage::AwaitCommit, ..s },
                SettlementAction::Commit {
                    job_id: s.job_id,
                    blob_url,
                    started_at_ms: s.started_at_ms,
                    compression_block: if s.is_scheduler {
                        Some(s.block_number)
                    } else {
                        None
                    },
                },
            ),
            None => to_audit(s, Some(ArchiveFailure::PrivateUploadFailed)),
        },
        (Stage::AwaitCommit, SettlementEvent::Committed(ok)) => if ok {
            to_audit(s, None)
        } else {
            to_audit(s, Some(ArchiveFailure::CommitFailed))
        },
        (Stage::AwaitAudit, SettlementEvent::AuditWritten) => (
            Settlement { stage: Stage::Finished, ..s },
            SettlementAction::Finish(outcome_of(s)),
        ),
        _ => (s, SettlementAction::Ignored),
    }
}

/// The first state and action of the settlement of `artifacts` for `job`.
pub open spec fn settle_begin<B, R, P, Q>(
    job: ProverJob<B, R>,
    started_at_ms: u64,
    artifacts: ProverArtifacts<P, Q>,
    save_public: bool,
) -> (Settlement, SettlementAction) {
    let s = Settlement {
        stage: Stage::AwaitKey,
        job_id: job.job_id,
        block_number: artifacts.block_number,
        job_layer: job.circuit_wrapper.layer_spec(),
        proof_layer: artifacts.proof_wrapper.layer_spec(),
        is_scheduler: artifacts.proof_wrapper.is_scheduler_spec(),
        key_circuit_id: job.setup_data_key.circuit_id,
        started_at_ms,
        save_public,
        verified: false,
        public_stored: false,
        rejection: None,
        archive_failure: None,
    };
    if s.job_layer != s.proof_layer {
        to_rejected(s, Rejection::LayerMismatch)
    } else {
        (s, SettlementAction::LoadVerificationKey { layer: s.job_layer, circuit_id: s.key_circuit_id })
    }
}

impl Settlement {
    /// Starts settling `artifacts`, submitted for the leased `job` whose lease
    /// began at `started_at_ms`. `save_public` says whether scheduler proofs go
    /// to the public store too, `public_store_present` whether one is configured:
    /// saving to a public store that is not there is a configuration error that
    /// the caller must not let through.
    pub fn begin<B, R, P, Q>(
        job: &ProverJob<B, R>,
        started_at_ms: u64,
        artifacts: &ProverArtifacts<P, Q>,
        save_public: bool,
        public_store_present: bool,
    ) -> (r: (Settlement, SettlementAction))
        requires
            save_public ==> public_store_present,
        ensures
            r == settle_begin(*job, started_at_ms, *artifacts, save_public),
    {
        let s = Settlement {
            stage: Stage::AwaitKey,
            job_id: job.job_id,
            block_number: artifacts.block_number,
            job_layer: job.circuit_wrapper.layer(),
            proof_layer: artifacts.proof_wrapper.layer(),
            is_scheduler: artifacts.proof_wrapper.is_scheduler_proof(),
            key_circuit_id: job.setup_data_key.circuit_id,
            started_at_ms,
            save_public,
            verified: false,
            public_stored: false,
            rejection: None,
            archive_failure: None,
        };
        if s.job_layer != s.proof_layer {
            Self::rejected(s, Rejection::LayerMismatch)
        } else {
            (s, SettlementAction::LoadVerificationKey { layer: s.job_layer, circuit_id: s.key_circuit_id })
        }
    }

    fn rejected(s: Settlement, why: Rejection) -> (r: (Settlement, SettlementAction))
        ensures
            r == to_rejected(s, why),
    {
        (
            Settlement { stage: Stage::Finished, rejection: Some(why), ..s },
            SettlementAction::Finish(SettlementOutcome::Rejected(why)),
        )
    }

    fn audit(&mut self, failure: Option<ArchiveFailure>) -> (a: SettlementAction)
        ensures
            (*final(self), a) == to_audit(*old(self), failure),
    {
        self.stage = Stage::AwaitAudit;
        self.archive_failure = failure;
        SettlementAction::AppendAudit
    }

    /// The outcome recorded so far.
    pub fn outcome(&self) -> (r: SettlementOutcome)
        ensures
            r == outcome_of(*self),
    {
        match self.rejection {
            Some(r) => SettlementOutcome::Rejected(r),
            None => SettlementOutcome::Accepted { archive_failure: self.archive_failure },
        }
    }

    /// Takes the driver's report `e` and says what to do next (see `settle_next`).
    pub fn step(&mut self, e: SettlementEvent) -> (a: SettlementAction)
        ensures
            (*final(self), a) == settle_next(*old(self), e),
    {
        match (self.stage, e) {
            (Stage::AwaitKey, SettlementEvent::KeyLoaded(ok)) => {
                if ok {
                    self.stage = Stage::AwaitVerdict;
                    SettlementAction::Verify
                } else {
                    let (s, a) = Self::rejected(*self, Rejection::KeyUnavailable);
                    *self = s;
                    a
                }
            },
            (Stage::AwaitVerdict, SettlementEvent::Verified(valid)) => {
                if valid {
                    self.stage = Stage::AwaitConnection;
                    self.verified = true;
                    SettlementAction::OpenConnection
                } else {
                    let (s, a) = Self::rejected(*self, Rejection::InvalidProof);
                    *self = s;
                    a
                }
            },
            (Stage::AwaitConnection, SettlementEvent::ConnectionOpened(ok)) => {
                if !ok {
                    self.audit(Some(ArchiveFailure::ConnectionFailed))
                } else if self.is_scheduler && self.save_public {
                    self.stage = Stage::AwaitPublicUpload;
                    SettlementAction::StorePublic { block_number: self.block_number }
                } else {
                    self.stage = Stage::AwaitPrivateUpload;
                    SettlementAction::StorePrivate { job_id: self.job_id }
                }
            },
            (Stage::AwaitPublicUpload, SettlementEvent::PublicStored(ok)) => {
                if ok {
                    self.stage = Stage::AwaitPrivateUpload;
                    self.public_stored = true;
                    SettlementAction::StorePrivate { job_id: self.job_id }
                } else {
                    self.audit(Some(ArchiveFailure::PublicUploadFailed))
                }
            },
            (Stage::AwaitPrivateUpload, SettlementEvent::PrivateStored(url)) => {
                match url {
                    Some(blob_url) => {
                        self.stage = Stage::AwaitCommit;
                        SettlementAction::Commit {
                            job_id: self.job_id,
                            blob_url,
                            started_at_ms: self.started_at_ms,
                            compression_block: if self.is_scheduler {
                                Some(self.block_number)
                            } else {
                                None
                            },
                        }
                    },
                    None => self.audit(Some(ArchiveFailure::PrivateUploadFailed)),
                }
            },
            (Stage::AwaitCommit, SettlementEvent::Committed(ok)) => {
                if ok {
                    self.audit(None)
                } else {
                    self.audit(Some(ArchiveFailure::CommitFailed))
                }
            },
            (Stage::AwaitAudit, SettlementEvent::AuditWritten) => {
                let outcome = self.outcome();
                self.stage = Stage::Finished;
                SettlementAction::Finish(outcome)
            },
            _ => SettlementAction::Ignored,
        }
    }
}

/// The actions that a settlement in state `s` asks for, one per event of `events`.
pub open spec fn settle_run(s: Settlement, events: Seq<SettlementEvent>) -> Seq<SettlementAction>
    decreases events.len(),
{
    if events.len() == 0 {
        Seq::empty()
    } else {
        let (next, a) = settle_next(s, events[0]);
        seq![a] + settle_run(next, events.drop_first())
    }
}

/// Position of a stage in the order in which a settlement goes through them.
pub open spec fn stage_rank(stage: Stage) -> nat {
    match stage {
        Stage::AwaitKey => 0,
        Stage::AwaitVerdict => 1,
        Stage::AwaitConnection => 2,
        Stage::AwaitPublicUpload => 3,
        Stage::AwaitPrivateUpload => 4,
        Stage::AwaitCommit => 5,
        Stage::AwaitAudit => 6,
        Stage::Finished => 7,
    }
}

/// Number of audit appends among `actions`.
pub open spec fn audit_count(actions: Seq<SettlementAction>) -> nat
    decreases actions.len(),
{
    if actions.len() == 0 {
        0
    } else {
        (if actions[0] is AppendAudit {
            1nat
        } else {
            0nat
        }) + audit_count(actions.drop_first())
    }
}

/// What every reachable settlement state satisfies: the proof has verified once
/// archival has begun, and a scheduler proof bound for the public store is
/// there before its private upload.
pub open spec fn settlement_inv(s: Settlement) -> bool {
    &&& (2 <= stage_rank(s.stage) <= 5 ==> s.verified)
    &&& (s.stage == Stage::AwaitPrivateUpload && dual_write(s) ==> s.public_stored)
}

proof fn lemma_next_keeps_identity(s: Settlement, e: SettlementEvent)
    ensures
        ({
            let n = settle_next(s, e).0;
            &&& n.job_id == s.job_id
            &&& n.block_number == s.block_number
            &&& n.is_scheduler == s.is_scheduler
            &&& n.save_public == s.save_public
            &&& stage_rank(n.stage) >= stage_rank(s.stage)
            &&& (settlement_inv(s) ==> settlement_inv(n))
            &&& (s.stage == Stage::Finished ==> n == s && settle_next(s, e).1 is Ignored)
        }),
{
}

proof fn lemma_run_len(s: Settlement, events: Seq<SettlementEvent>)
    ensures
        settle_run(s, events).len() == events.len(),
    decreases events.len(),
{
    if events.len() > 0 {
        lemma_run_len(settle_next(s, events[0]).0, events.drop_first());
    }
}

proof fn lemma_finished_run_ignored(s: Settlement, events: Seq<SettlementEvent>)
    requires
        s.stage == Stage::Finished,
    ensures
        forall|i: int| 0 <= i < events.len() ==> #[trigger] settle_run(s, events)[i] is Ignored,
    decreases events.len(),
{
    lemma_run_len(s, events);
    if events.len() > 0 {
        lemma_next_keeps_identity(s, events[0]);
        lemma_finished_run_ignored(s, events.drop_first());
        lemma_run_len(s, events.drop_first());
        assert forall|i: int| 0 <= i < events.len() implies #[trigger] settle_run(s, events)[i] is Ignored by {
            if i > 0 {
                assert(settle_run(s, events)[i] == settle_run(s, events.drop_first())[i - 1]);
            }
        }
    }
}

proof fn lemma_run_public_writes(s: Settlement, events: Seq<SettlementEvent>)
    requires
        settlement_inv(s),
    ensures
        forall|i: int|
            0 <= i < events.len() ==> {
                let a = #[trigger] settle_run(s, events)[i];
                &&& (a matches SettlementAction::StorePublic { block_number } ==> dual_write(s)
                    && block_number == s.block_number)
                &&& (a is Commit && dual_write(s) ==> s.public_stored || s.stage
                    == Stage::AwaitPublicUpload || exists|j: int|
                    0 <= j < i && settle_run(s, events)[j] is StorePublic)
            },
    decreases events.len(),
{
    lemma_run_len(s, events);
    if events.len() > 0 {
        let (n, a) = settle_next(s, events[0]);
        let rest = events.drop_first();
        lemma_next_keeps_identity(s, events[0]);
        lemma_run_public_writes(n, rest);
        lemma_run_len(n, rest);
        let run = settle_run(s, events);
        assert forall|i: int| 0 <= i < events.len() implies {
            let a = #[trigger] run[i];
            &&& (a matches SettlementAction::StorePublic { block_number } ==> dual_write(s)
                && block_number == s.block_number)
            &&& (a is Commit && dual_write(s) ==> s.public_stored || s.stage
                == Stage::AwaitPublicUpload || exists|j: int|
                0 <= j < i && run[j] is StorePublic)
        } by {
            if i > 0 {
                assert(run[i] == settle_run(n, rest)[i - 1]);
                if run[i] is Commit && dual_write(s) && !s.public_stored && s.stage
                    != Stage::AwaitPublicUpload {
                    if n.public_stored || n.stage == Stage::AwaitPublicUpload {
                        assert(run[0] is StorePublic);
                    } else {
                        let j = choose|j: int| 0 <= j < i - 1 && settle_run(n, rest)[j] is StorePublic;
                        assert(run[j + 1] == settle_run(n, rest)[j]);
                    }
                }
            }
        }
    }
}

proof fn lemma_run_audits(s: Settlement, events: Seq<SettlementEvent>)
    requires
        settlement_inv(s),
    ensures
        audit_count(settle_run(s, events)) <= (if stage_rank(s.stage) < 6 {
            1nat
        } else {
            0nat
        }),
        forall|i: int|
            0 <= i < events.len() && #[trigger] settle_run(s, events)[i] is AppendAudit ==> s.verified
                || exists|j: int| 0 <= j < i && #[trigger] events[j] matches SettlementEvent::Verified(true),
    decreases events.len(),
{
    lemma_run_len(s, events);
    if events.len() > 0 {
        let (n, a) = settle_next(s, events[0]);
        let rest = events.drop_first();
        lemma_next_keeps_identity(s, events[0]);
        lemma_run_audits(n, rest);
        lemma_run_len(n, rest);
        let run = settle_run(s, events);
        assert(run.drop_first() == settle_run(n, rest));
        assert forall|i: int|
            0 <= i < events.len() && #[trigger] run[i] is AppendAudit implies s.verified || exists|j: int|
            0 <= j < i && #[trigger] events[j] matches SettlementEvent::Verified(true) by {
            if i > 0 {
                assert(run[i] == settle_run(n, rest)[i - 1]);
                if !s.verified && !n.verified {
                    let j = choose|j: int| 0 <= j < i - 1 && #[trigger] rest[j] matches SettlementEvent::Verified(true);
                    assert(events[j + 1] == rest[j]);
                } else if !s.verified {
                    assert(events[0] matches SettlementEvent::Verified(true));
                }
            }
        }
    }
}

/// A proof whose layer differs from the leased circuit's layer is rejected at
/// once and never reaches archival: every later event is ignored.
pub proof fn lemma_layer_mismatch_never_archived<B, R, P, Q>(
    job: ProverJob<B, R>,
    started_at_ms: u64,
    artifacts: ProverArtifacts<P, Q>,
    save_public: bool,
    events: Seq<SettlementEvent>,
)
    requires
        job.circuit_wrapper.layer_spec() != artifacts.proof_wrapper.layer_spec(),
    ensures
        ({
            let (s, a) = settle_begin(job, started_at_ms, artifacts, save_public);
            &&& a == SettlementAction::Finish(SettlementOutcome::Rejected(Rejection::LayerMismatch))
            &&& forall|i: int| 0 <= i < events.len() ==> #[trigger] settle_run(s, events)[i] is Ignored
        }),
{
    let s = settle_begin(job, started_at_ms, artifacts, save_public).0;
    lemma_finished_run_ignored(s, events);
}

/// Scheduler dual write: the public store receives a proof only when it is a
/// scheduler proof and public saving is on, and then under the reported block
/// number; and in that case every database commit comes after the public upload.
pub proof fn lemma_scheduler_dual_write<B, R, P, Q>(
    job: ProverJob<B, R>,
    started_at_ms: u64,
    artifacts: ProverArtifacts<P, Q>,
    save_public: bool,
    events: Seq<SettlementEvent>,
)
    ensures
        ({
            let s = settle_begin(job, started_at_ms, artifacts, save_public).0;
            let run = settle_run(s, events);
            forall|i: int|
                0 <= i < events.len() ==> {
                    &&& (#[trigger] run[i] matches SettlementAction::StorePublic { block_number } ==> (
                    artifacts.proof_wrapper.is_scheduler_spec() && save_public && block_number
                        == artifacts.block_number))
                    &&& (run[i] is Commit && artifacts.proof_wrapper.is_scheduler_spec() && save_public
                        ==> exists|j: int| 0 <= j < i && run[j] is StorePublic)
                }
        }),
{
    let s = settle_begin(job, started_at_ms, artifacts, save_public).0;
    lemma_run_public_writes(s, events);
}

/// Audit append: over any run of a settlement, the audit line is appended at
/// most once, and only after the proof was reported valid.
pub proof fn lemma_audit_once_after_verification<B, R, P, Q>(
    job: ProverJob<B, R>,
    started_at_ms: u64,
    artifacts: ProverArtifacts<P, Q>,
    save_public: bool,
    events: Seq<SettlementEvent>,
)
    ensures
        ({
            let s = settle_begin(job, started_at_ms, artifacts, save_public).0;
            let run = settle_run(s, events);
            &&& audit_count(run) <= 1
            &&& forall|i: int|
                0 <= i < events.len() && #[trigger] run[i] is AppendAudit ==> exists|j: int|
                    0 <= j < i && #[trigger] events[j] matches SettlementEvent::Verified(true)
        }),
{
    let s = settle_begin(job, started_at_ms, artifacts, save_public).0;
    lemma_run_audits(s, events);
}

/// The line that a successful verification appends to the audit file: the
/// worker-supplied name and a line feed.
pub open spec fn audit_line_spec(username: Seq<char>) -> Seq<char> {
    username + "\n"@
}

/// Builds the audit line for `username` (see `audit_line_spec`).
pub fn audit_line(username: &str) -> (r: String)
    ensures
        r@ == audit_line_spec(username@),
{
    String::from_str(username).concat("\n")
}

} // verus!
