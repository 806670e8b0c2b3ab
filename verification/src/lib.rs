//! Accounting core of a collateralized-debt ("trove") record kept on an
//! append-only ledger.
//!
//! The host execution environment hands the core an ordered list of account
//! buffers and an opaque instruction payload once per invocation. The core
//! decodes the payload, validates the account buffers in a fixed order, and,
//! when every check passes, writes a freshly encoded trove record back into
//! the storage buffer. All monetary quantities are fixed-point decimals with
//! eighteen fractional digits, and every byte layout is fixed-offset and
//! bit-for-bit stable.

pub mod error;
pub mod instruction;
pub mod math;
pub mod processor;
pub mod state;
