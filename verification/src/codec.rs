//! Serialized-ciphertext boundary: the driver hands the circuits their
//! inputs as `bincode`-serialized engine ciphertexts and takes the outputs
//! back the same way. Decoding stamps each adopted value with the context
//! it is adopted under; its plaintext model stays unknown, as it must for a
//! genuine ciphertext.

use vstd::prelude::*;

use crate::engine::{
    unknown, Cipher10, Cipher16, Cipher4, Cipher64, Ct10, Ct16, Ct4, Ct64, Ct8, EvalContext,
};
use crate::CircuitError;

verus! {

#[verifier::external_type_specification]
#[verifier::external_body]
pub struct ExBincodeErrorKind(bincode::ErrorKind);

/// Relies on bincode::deserialize for tfhe::FheUint4: decodes one
/// serialized 4-bit ciphertext or reports the decoding error.
#[verifier::external_body]
fn decode4_raw(ctx: &EvalContext, bytes: &[u8]) -> (r: Result<Ct4, Box<bincode::ErrorKind>>)
    ensures
        r matches Ok(c) ==> c.cx() == ctx.id() && c.inv(),
{
    let _ = ctx;
    match bincode::deserialize::<tfhe::FheUint4>(bytes) {
        Ok(ct) => Ok(Ct4 { ct: Cipher4 { ct }, pt: unknown(), cx: unknown() }),
        Err(e) => Err(e),
    }
}

/// Relies on bincode::deserialize for tfhe::FheUint10: decodes one
/// serialized 10-bit ciphertext or reports the decoding error.
#[verifier::external_body]
fn decode10_raw(ctx: &EvalContext, bytes: &[u8]) -> (r: Result<Ct10, Box<bincode::ErrorKind>>)
    ensures
        r matches Ok(c) ==> c.cx() == ctx.id() && c.inv(),
{
    let _ = ctx;
    match bincode::deserialize::<tfhe::FheUint10>(bytes) {
        Ok(ct) => Ok(Ct10 { ct: Cipher10 { ct }, pt: unknown(), cx: unknown() }),
        Err(e) => Err(e),
    }
}

/// Relies on bincode::deserialize for tfhe::FheUint16: decodes one
/// serialized 16-bit ciphertext or reports the decoding error.
#[verifier::external_body]
fn decode16_raw(ctx: &EvalContext, bytes: &[u8]) -> (r: Result<Ct16, Box<bincode::ErrorKind>>)
    ensures
        r matches Ok(c) ==> c.cx() == ctx.id(),
{
    let _ = ctx;
    match bincode::deserialize::<tfhe::FheUint16>(bytes) {
        Ok(ct) => Ok(Ct16 { ct: Cipher16 { ct }, pt: unknown(), cx: unknown() }),
        Err(e) => Err(e),
    }
}

/// Relies on bincode::deserialize for Vec<tfhe::FheUint64>: decodes a
/// serialized token list or reports the decoding error.
#[verifier::external_body]
fn decode_tokens_raw(ctx: &EvalContext, bytes: &[u8]) -> (r: Result<
    Vec<Ct64>,
    Box<bincode::ErrorKind>,
>)
    ensures
        r matches Ok(v) ==> forall|i: int| 0 <= i < v@.len() ==> (#[trigger] v@[i]).cx() == ctx.id(),
{
    let _ = ctx;
    match bincode::deserialize::<Vec<tfhe::FheUint64>>(bytes) {
        Ok(cts) => Ok(
            cts.into_iter().map(
                |ct| Ct64 { ct: Cipher64 { ct }, pt: unknown(), cx: unknown() },
            ).collect(),
        ),
        Err(e) => Err(e),
    }
}

/// Relies on bincode::serialize for tfhe::FheUint8: encodes the ciphertext
/// or reports the encoding error.
#[verifier::external_body]
fn encode8_raw(c: &Ct8) -> (r: Result<Vec<u8>, Box<bincode::ErrorKind>>) {
    bincode::serialize(&c.ct.ct)
}

/// Relies on bincode::serialize for tfhe::FheUint16: encodes the
/// ciphertext or reports the encoding error.
#[verifier::external_body]
fn encode16_raw(c: &Ct16) -> (r: Result<Vec<u8>, Box<bincode::ErrorKind>>) {
    bincode::serialize(&c.ct.ct)
}

/// Relies on bincode::serialize for tfhe::FheUint64: encodes the
/// ciphertext or reports the encoding error.
#[verifier::external_body]
fn encode64_raw(c: &Ct64) -> (r: Result<Vec<u8>, Box<bincode::ErrorKind>>) {
    bincode::serialize(&c.ct.ct)
}

/// Adopts a serialized 4-bit ciphertext under the given context.
pub fn decode_ciphertext4(ctx: &EvalContext, bytes: &[u8]) -> (r: Result<Ct4, CircuitError>)
    ensures
        r matches Ok(c) ==> c.cx() == ctx.id() && c.inv(),
        r is Err ==> r == Err::<Ct4, CircuitError>(CircuitError::Undecodable),
{
    match decode4_raw(ctx, bytes) {
        Ok(c) => Ok(c),
        Err(_) => Err(CircuitError::Undecodable),
    }
}

/// Adopts a serialized 10-bit ciphertext under the given context.
pub fn decode_ciphertext10(ctx: &EvalContext, bytes: &[u8]) -> (r: Result<Ct10, CircuitError>)
    ensures
        r matches Ok(c) ==> c.cx() == ctx.id() && c.inv(),
        r is Err ==> r == Err::<Ct10, CircuitError>(CircuitError::Undecodable),
{
    match decode10_raw(ctx, bytes) {
        Ok(c) => Ok(c),
        Err(_) => Err(CircuitError::Undecodable),
    }
}

/// Adopts a serialized 16-bit ciphertext under the given context.
pub fn decode_ciphertext16(ctx: &EvalContext, bytes: &[u8]) -> (r: Result<Ct16, CircuitError>)
    ensures
        r matches Ok(c) ==> c.cx() == ctx.id(),
        r is Err ==> r == Err::<Ct16, CircuitError>(CircuitError::Undecodable),
{
    match decode16_raw(ctx, bytes) {
        Ok(c) => Ok(c),
        Err(_) => Err(CircuitError::Undecodable),
    }
}

/// Adopts a serialized token list under the given context.
pub fn decode_token_list(ctx: &EvalContext, bytes: &[u8]) -> (r: Result<Vec<Ct64>, CircuitError>)
    ensures
        r matches Ok(v) ==> forall|i: int| 0 <= i < v@.len() ==> (#[trigger] v@[i]).cx() == ctx.id(),
        r is Err ==> r == Err::<Vec<Ct64>, CircuitError>(CircuitError::Undecodable),
{
    match decode_tokens_raw(ctx, bytes) {
        Ok(v) => Ok(v),
        Err(_) => Err(CircuitError::Undecodable),
    }
}

/// Serializes an 8-bit result for the driver to persist.
pub fn encode_ciphertext8(c: &Ct8) -> (r: Result<Vec<u8>, CircuitError>)
    ensures
        r is Err ==> r == Err::<Vec<u8>, CircuitError>(CircuitError::Unencodable),
{
    match encode8_raw(c) {
        Ok(v) => Ok(v),
        Err(_) => Err(CircuitError::Unencodable),
    }
}

/// Serializes a 16-bit result for the driver to persist.
pub fn encode_ciphertext16(c: &Ct16) -> (r: Result<Vec<u8>, CircuitError>)
    ensures
        r is Err ==> r == Err::<Vec<u8>, CircuitError>(CircuitError::Unencodable),
{
    match encode16_raw(c) {
        Ok(v) => Ok(v),
        Err(_) => Err(CircuitError::Unencodable),
    }
}

/// Serializes a 64-bit result for the driver to persist.
pub fn encode_ciphertext64(c: &Ct64) -> (r: Result<Vec<u8>, CircuitError>)
    ensures
        r is Err ==> r == Err::<Vec<u8>, CircuitError>(CircuitError::Unencodable),
{
    match encode64_raw(c) {
        Ok(v) => Ok(v),
        Err(_) => Err(CircuitError::Unencodable),
    }
}

} // verus!
