//! Oblivious circuits over homomorphically encrypted integers.
//!
//! Every branch of the source algorithms is re-expressed as an
//! arithmetic/select expression over encrypted values, so that the evaluator
//! never inspects a secret. The plaintext meaning of each circuit is captured
//! by spec functions, and each circuit is proved to compute that meaning over
//! the ghost plaintext models of its inputs.

use vstd::prelude::*;

pub mod aggregate;
pub mod codec;
pub mod engine;
pub mod model;
pub mod offset;
pub mod sleep;
pub mod watermark;

verus! {

/// What the core reports at its boundary. Once inputs are well typed the
/// circuits cannot fail on secret values, since they are oblivious to them;
/// only the boundary checks and the ciphertext decoding can go wrong.
#[derive(Clone, Copy, Debug, PartialEq, Eq, Structural)]
pub enum CircuitError {
    /// The aggregate circuit was handed an empty sequence.
    EmptyInput,
    /// A record stream's length or field pattern does not match the
    /// expected per-record field count.
    MalformedRecords,
    /// A serialized ciphertext could not be decoded.
    Undecodable,
    /// A result ciphertext could not be serialized.
    Unencodable,
}

} // verus!
