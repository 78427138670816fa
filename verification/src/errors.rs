//! The error taxonomy: each component owns a small typed error, and
//! per-event failures never reach past the function that produced them.
use vstd::prelude::*;

verus! {

/// What the boundary adapter can reject a raw record for.
#[derive(Clone, Copy, Debug, PartialEq, Eq, Structural)]
pub enum ConversionError {
    /// The numeric type code is outside the known enumeration, or names a
    /// kind that carries no event payload.
    UnhandledType,
    /// An integer field lies outside its defined valid range.
    OutOfRange,
    /// The current time is earlier than the capture-time start instant,
    /// so the derived execution time would be negative.
    ClockSkew,
    /// The key-character buffer was neither valid UTF-8 nor a whole
    /// UTF-16 code unit; non-fatal, the event itself still goes through.
    EncodingFallback,
}

/// What the motion aggregator can reject a batch for.
#[derive(Clone, Copy, Debug, PartialEq, Eq, Structural)]
pub enum AggregationError {
    /// The capture source handed over a batch of zero samples, breaking
    /// its contract; the batch is discarded.
    EmptyBatch,
}

/// What stops the migration engine; any of these is fatal to startup.
#[derive(Clone, Copy, Debug, PartialEq, Eq, Structural)]
pub enum MigrationError {
    /// The embedded migration table could not be decoded.
    Parse,
    /// The decoded migrations break their invariant: a duplicate
    /// timestamp, or an empty up or down script.
    Invalid,
    /// More than one ledger table was found in the store.
    DuplicateLedger,
    /// Reading the ledger failed.
    Ledger,
    /// Applying a migration script or recording it in the ledger failed;
    /// the ledger stays at the last version recorded before the failure.
    Script,
}

/// What the persistence layer can fail a single write with; the store is
/// left in its prior committed state.
#[derive(Clone, Copy, Debug, PartialEq, Eq, Structural)]
pub enum PersistenceError {
    /// The underlying store refused the dimension lookup or insert.
    Process,
    /// The underlying store refused the fact row.
    Fact,
}

} // verus!
