//! Migration engine for libSQL/SQLite databases.
//!
//! The library applies named SQL migration scripts exactly once each, in a
//! deterministic order, and records which scripts have run in a tracking
//! table inside the target database. All decisions of the protocol — input
//! validation, ordering, the per-migration state machine, and batch
//! aggregation — live here and are verified; an unverified driver performs
//! the actual database, filesystem and network operations those decisions
//! ask for, and feeds their results back as plain values.
//!
//! The pieces:
//! - [`util`]: the executor state machine that applies one migration
//!   idempotently, the tracking statements, and root-path validation;
//! - [`batch`]: ordered batches of migrations and the runner that drives
//!   them strictly in sequence;
//! - [`order`]: the lexicographic id order batches run in;
//! - [`content`], [`dir`], [`remote`]: one entry point per migration source;
//! - [`errors`]: the error taxonomy;
//! - [`protocol`]: the laws of the protocol against a faithful database —
//!   idempotence, safe resumption, empty batches — proved over the same
//!   transition relation the executable machine follows.

pub mod batch;
pub mod content;
pub mod dir;
pub mod errors;
pub mod order;
pub mod protocol;
pub mod remote;
pub mod util;
