//! Job leasing, verification gating and archival planning for a distributed
//! FRI proving coordinator, together with the decision logic of a prover worker.
//!
//! The heavy collaborators (the durable job queue, blob stores, the proving and
//! verification algorithms, the key store) stay outside the library: the
//! functions here take what those collaborators report as plain values and
//! decide what happens next.
pub mod keys;
pub mod jobs;
pub mod text;
pub mod coordinator;
pub mod settlement;
pub mod setup;
pub mod circuit_ids;
pub mod worker;
