//! A SIP location registrar: canonical storage keys for addresses-of-record,
//! TTL-governed registration commands for a key-value backend, and the
//! request coordination (validate, authorize, store) behind the registrar RPCs.
pub mod canonical;
pub mod error;
pub mod store;
pub mod registrar;
pub mod retry;
pub mod endpoint;
