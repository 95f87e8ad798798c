//! Offset circuit: add a public constant to one encrypted 16-bit value.

use vstd::prelude::*;

use crate::engine::{add16_scalar, Ct16, EvalContext};
use crate::model::m16;

verus! {

/// Evaluates the offset circuit: the result decrypts to the input plus the
/// public constant, wrapping at the 16-bit width.
pub fn evaluate_offset(ctx: &EvalContext, value: &Ct16, constant: u16) -> (r: Ct16)
    requires
        value.cx() == ctx.id(),
    ensures
        r.pt() == m16(value.pt() + constant),
        r.cx() == ctx.id(),
{
    add16_scalar(ctx, value, constant)
}

/// Reference evaluation of the offset on a plaintext value, for checking
/// circuit outputs against.
pub fn clear_offset(value: u16, constant: u16) -> (r: u16)
    ensures
        r == m16(value + constant),
{
    let wide: u32 = value as u32 + constant as u32;
    (wide % 0x1_0000) as u16
}

} // verus!
