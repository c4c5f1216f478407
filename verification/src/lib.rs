//! Verified core of a GPU rendering-context bootstrap: the policy and
//! bookkeeping that take a context from nothing to a ready device and queue
//! bound to a platform window, and back down again in exactly the reverse
//! order.
//!
//! The driver and windowing collaborators themselves are reached only through
//! narrow trusted wrappers or by the unverified shell around this library;
//! everything that decides — extension-set assembly, device and queue-family
//! selection, the acquisition ledger and its teardown order — is verified
//! here over plain values.

pub mod context;
pub mod device;
pub mod diagnostics;
pub mod error;
pub mod extensions;
pub mod instance;
pub mod selection;
pub mod surface;
pub mod version;
