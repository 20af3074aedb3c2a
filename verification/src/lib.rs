//! Decoder for a producer-owned shared-memory telemetry snapshot.
//!
//! The library is the pure decoding core: a position-tracking cursor over a
//! byte region, unconditional and fallible (transactional) decode
//! capabilities, the fixed-layout record decoders, and the freshness
//! resolution over the rotating payload buffers. Acquiring the shared memory
//! mapping, the producer's signal and the per-iteration views is left to the
//! surrounding program, which hands each snapshot to [`snapshot::decode_snapshot`]
//! as a plain byte slice.

use vstd::prelude::*;

pub mod ptr;
pub mod records;
pub mod snapshot;

verus! {

/// Everything that can go wrong while connecting to the producer or while
/// decoding one snapshot. The connection-level variants are produced at the
/// process boundary; only [`Error::UnknownVarType`] and [`Error::WaitFailed`]
/// are produced by this library's own logic.
#[derive(Debug, Clone, Copy, PartialEq, Eq, Structural)]
pub enum Error {
    /// The producer's shared memory region is not currently published.
    TelemetryNotPresent,
    /// The producer's data-valid signal object is not currently published.
    EventNotPresent,
    /// A read-only view of the shared memory region could not be established.
    ViewCreationFailed,
    /// A variable type discriminant outside the known range, carrying the
    /// offending raw code.
    UnknownVarType(i32),
    /// The blocking wait on the producer's signal failed, carrying the OS
    /// error code.
    WaitFailed(u32),
}

} // verus!
