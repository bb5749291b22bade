//! Reconciles purchase and subscription state reported by two app-store
//! billing vendors into a local ledger, and forwards the derived events to
//! subscriber-registered webhook endpoints with retry, backoff and
//! dead-lettering.
//!
//! The signed-payload codec, the credential signer's claim building and
//! framing, both vendors' notification and response reading, the catalog
//! mappings, the reconciler's planning and the delivery engine's state
//! machine are verified; vendor JSON is read and raw signatures are made
//! through trusted wrappers, and all I/O stays with the caller.

pub mod apple;
pub mod catalog;
pub mod codec;
pub mod delivery;
pub mod errors;
pub mod google;
pub mod models;
pub mod reconcile;
pub mod signer;
pub mod strutil;
pub mod types;

