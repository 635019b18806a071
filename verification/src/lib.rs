//! Reconciliation engine for a controller that keeps delegated storage-access
//! tokens fresh: an expiry policy deciding when a token must be renewed, a
//! retry-governed token issuer, publishers for the derived secret and the
//! resource status, and the orchestrator that sequences them.

pub mod crd;
pub mod reconcile;
pub mod sas;
pub mod secret;
pub mod status;
pub mod utils;
