//! The boundary to the homomorphic-encryption engine (the `tfhe` crate).
//!
//! Every encrypted scalar of this library pairs an engine ciphertext with a
//! ghost model of the plaintext it decrypts to under the evaluation context's
//! key. The trusted wrappers below state, over those models, exactly what the
//! engine's documentation promises of each operation; all circuit logic is
//! verified against these contracts.
//!
//! The engine keeps the server key as thread-ambient state; this library
//! replaces that with an explicit [`EvalContext`] value that witnesses the
//! installation of a key and carries a ghost identity. Every wrapper requires
//! all of its operands to live under the same context, which is the verified
//! form of the rule that mixing key material across one evaluation is
//! undefined.

use vstd::prelude::*;

use tfhe::prelude::{
    CastFrom, FheEncrypt, FheEq, FheMax, FheMin, FheOrd, FheTrivialEncrypt, IfThenElse,
};

use crate::model::{m10, m16, m4, m64, m8};

verus! {

#[verifier::external_type_specification]
#[verifier::external_body]
pub struct ExFheBool(tfhe::FheBool);

#[verifier::external_type_specification]
#[verifier::external_body]
pub struct ExClientKey(tfhe::ClientKey);

#[verifier::external_type_specification]
#[verifier::external_body]
pub struct ExServerKey(tfhe::ServerKey);

/// Opaque holder for an engine ciphertext of 4-bit width. The engine's
/// unsigned types are instances of one generic struct whose trait bound is
/// private to the engine crate, so they cannot be declared to the verifier
/// directly; each width is therefore boxed in its own opaque struct.
#[verifier::external_body]
pub struct Cipher4 {
    pub(crate) ct: tfhe::FheUint4,
}

/// Opaque holder for an engine ciphertext of 8-bit width.
#[verifier::external_body]
pub struct Cipher8 {
    pub(crate) ct: tfhe::FheUint8,
}

/// Opaque holder for an engine ciphertext of 10-bit width.
#[verifier::external_body]
pub struct Cipher10 {
    pub(crate) ct: tfhe::FheUint10,
}

/// Opaque holder for an engine ciphertext of 16-bit width.
#[verifier::external_body]
pub struct Cipher16 {
    pub(crate) ct: tfhe::FheUint16,
}

/// Opaque holder for an engine ciphertext of 64-bit width.
#[verifier::external_body]
pub struct Cipher64 {
    pub(crate) ct: tfhe::FheUint64,
}

/// An unconstrained ghost value, for the trusted wrapper bodies: the model
/// of a freshly produced ciphertext is fixed only by the wrapper's contract.
pub(crate) fn unknown<A>() -> Ghost<A> {
    Ghost(arbitrary())
}

/// Witness that a server key has been installed for the current thread.
///
/// The ghost `id` names the key material: two encrypted values may be
/// combined only if they carry the same `id`. The witness is only good on
/// the thread that installed the key, and only until another key is
/// installed there: one evaluation context per thread at a time, as the
/// driver runs one evaluation per process.
pub struct EvalContext {
    id: Ghost<int>,
}

impl EvalContext {
    pub closed spec fn id(self) -> int {
        self.id@
    }

    /// Relies on tfhe::set_server_key: installs the evaluation key for the
    /// current thread, which every later engine operation implicitly uses.
    /// Installing a second key invalidates every earlier witness on the
    /// thread; the wrappers' contracts hold only under the context that
    /// was installed last.
    #[verifier::external_body]
    pub fn install(key: tfhe::ServerKey) -> (ctx: EvalContext) {
        tfhe::set_server_key(key);
        EvalContext { id: unknown() }
    }
}

/// An encrypted boolean: the result of an oblivious comparison, consumed
/// only by select, the boolean combinators, or a cast to 0/1.
pub struct CtBool {
    pub(crate) ct: tfhe::FheBool,
    pub(crate) pt: Ghost<bool>,
    pub(crate) cx: Ghost<int>,
}

impl CtBool {
    /// The plaintext this value decrypts to under its context's key.
    pub closed spec fn pt(self) -> bool {
        self.pt@
    }

    /// The context whose key material this value belongs to.
    pub closed spec fn cx(self) -> int {
        self.cx@
    }
}

/// An encrypted 4-bit unsigned integer (a sleep-stage identifier).
pub struct Ct4 {
    pub(crate) ct: Cipher4,
    pub(crate) pt: Ghost<u8>,
    pub(crate) cx: Ghost<int>,
}

impl Ct4 {
    /// The plaintext this value decrypts to under its context's key.
    pub closed spec fn pt(self) -> u8 {
        self.pt@
    }

    /// The context whose key material this value belongs to.
    pub closed spec fn cx(self) -> int {
        self.cx@
    }

    /// The plaintext fits the ciphertext's 4-bit width.
    pub open spec fn inv(self) -> bool {
        self.pt() < 16
    }
}

/// An encrypted 8-bit unsigned integer (a score or category).
pub struct Ct8 {
    pub(crate) ct: Cipher8,
    pub(crate) pt: Ghost<u8>,
    pub(crate) cx: Ghost<int>,
}

impl Ct8 {
    /// The plaintext this value decrypts to under its context's key.
    pub closed spec fn pt(self) -> u8 {
        self.pt@
    }

    /// The context whose key material this value belongs to.
    pub closed spec fn cx(self) -> int {
        self.cx@
    }
}

/// An encrypted 10-bit unsigned integer (a minute count within a day).
pub struct Ct10 {
    pub(crate) ct: Cipher10,
    pub(crate) pt: Ghost<u16>,
    pub(crate) cx: Ghost<int>,
}

impl Ct10 {
    /// The plaintext this value decrypts to under its context's key.
    pub closed spec fn pt(self) -> u16 {
        self.pt@
    }

    /// The context whose key material this value belongs to.
    pub closed spec fn cx(self) -> int {
        self.cx@
    }

    /// The plaintext fits the ciphertext's 10-bit width.
    pub open spec fn inv(self) -> bool {
        self.pt() < 1024
    }
}

/// An encrypted 16-bit unsigned integer (a weight reading, or a product in
/// the efficiency comparison).
pub struct Ct16 {
    pub(crate) ct: Cipher16,
    pub(crate) pt: Ghost<u16>,
    pub(crate) cx: Ghost<int>,
}

impl Ct16 {
    /// The plaintext this value decrypts to under its context's key.
    pub closed spec fn pt(self) -> u16 {
        self.pt@
    }

    /// The context whose key material this value belongs to.
    pub closed spec fn cx(self) -> int {
        self.cx@
    }
}

/// An encrypted 64-bit unsigned integer (a token or a rolling hash).
pub struct Ct64 {
    pub(crate) ct: Cipher64,
    pub(crate) pt: Ghost<u64>,
    pub(crate) cx: Ghost<int>,
}

impl Ct64 {
    /// The plaintext this value decrypts to under its context's key.
    pub closed spec fn pt(self) -> u64 {
        self.pt@
    }

    /// The context whose key material this value belongs to.
    pub closed spec fn cx(self) -> int {
        self.cx@
    }
}

// Boolean combinators.

/// Relies on FheBool's Not: the result decrypts to the negated condition.
#[verifier::external_body]
pub fn not_bool(ctx: &EvalContext, a: &CtBool) -> (r: CtBool)
    requires
        a.cx() == ctx.id(),
    ensures
        r.pt() == !a.pt(),
        r.cx() == ctx.id(),
{
    let _ = ctx;
    CtBool { ct: !&a.ct, pt: unknown(), cx: unknown() }
}

/// Relies on FheBool's BitAnd: the result decrypts to the conjunction.
#[verifier::external_body]
pub fn and_bool(ctx: &EvalContext, a: &CtBool, b: &CtBool) -> (r: CtBool)
    requires
        a.cx() == ctx.id(),
        b.cx() == ctx.id(),
    ensures
        r.pt() == (a.pt() && b.pt()),
        r.cx() == ctx.id(),
{
    let _ = ctx;
    CtBool { ct: &a.ct & &b.ct, pt: unknown(), cx: unknown() }
}

/// Relies on FheBool's BitOr: the result decrypts to the disjunction.
#[verifier::external_body]
pub fn or_bool(ctx: &EvalContext, a: &CtBool, b: &CtBool) -> (r: CtBool)
    requires
        a.cx() == ctx.id(),
        b.cx() == ctx.id(),
    ensures
        r.pt() == (a.pt() || b.pt()),
        r.cx() == ctx.id(),
{
    let _ = ctx;
    CtBool { ct: &a.ct | &b.ct, pt: unknown(), cx: unknown() }
}

/// Relies on FheBool's FheTrivialEncrypt: a trivial encryption decrypts to
/// the given public constant.
#[verifier::external_body]
pub fn trivial_bool(ctx: &EvalContext, v: bool) -> (r: CtBool)
    ensures
        r.pt() == v,
        r.cx() == ctx.id(),
{
    let _ = ctx;
    CtBool { ct: tfhe::FheBool::encrypt_trivial(v), pt: unknown(), cx: unknown() }
}

// 4-bit operations.

/// Relies on FheUint4's FheEq with a clear right-hand side: the result
/// decrypts to whether the hidden value equals the public constant.
#[verifier::external_body]
pub fn eq4_scalar(ctx: &EvalContext, a: &Ct4, k: u8) -> (r: CtBool)
    requires
        a.cx() == ctx.id(),
        k < 16,
    ensures
        r.pt() == (a.pt() == k),
        r.cx() == ctx.id(),
{
    let _ = ctx;
    CtBool { ct: a.ct.ct.eq(k), pt: unknown(), cx: unknown() }
}

/// Relies on FheUint4's FheEncrypt: a genuine encryption under the client
/// key decrypts to the given value, reduced to the 4-bit width. The caller
/// must pair the client key with the context whose evaluation key it
/// generated; mixing key material is the undefined case this library
/// excludes everywhere else by contract.
#[verifier::external_body]
pub fn encrypt4(client_key: &tfhe::ClientKey, ctx: &EvalContext, v: u8) -> (r: Ct4)
    ensures
        r.pt() == m4(v as int),
        r.cx() == ctx.id(),
        r.inv(),
{
    let _ = ctx;
    Ct4 {
        ct: Cipher4 { ct: tfhe::FheUint4::encrypt(v, client_key) },
        pt: unknown(),
        cx: unknown(),
    }
}

// 10-bit operations.

/// Relies on FheUint10's FheEncrypt: a genuine encryption under the client
/// key decrypts to the given value, reduced to the 10-bit width. The caller
/// must pair the client key with the context whose evaluation key it
/// generated.
#[verifier::external_body]
pub fn encrypt10(client_key: &tfhe::ClientKey, ctx: &EvalContext, v: u16) -> (r: Ct10)
    ensures
        r.pt() == m10(v as int),
        r.cx() == ctx.id(),
        r.inv(),
{
    let _ = ctx;
    Ct10 {
        ct: Cipher10 { ct: tfhe::FheUint10::encrypt(v, client_key) },
        pt: unknown(),
        cx: unknown(),
    }
}

/// Relies on FheUint10's FheTrivialEncrypt: a trivial encryption decrypts to
/// the given public constant.
#[verifier::external_body]
pub fn trivial10(ctx: &EvalContext, v: u16) -> (r: Ct10)
    requires
        v < 1024,
    ensures
        r.pt() == v,
        r.cx() == ctx.id(),
{
    let _ = ctx;
    Ct10 { ct: Cipher10 { ct: tfhe::FheUint10::encrypt_trivial(v) }, pt: unknown(), cx: unknown() }
}

/// Relies on FheUint10's Add: the sum is modular, wrapping on overflow.
#[verifier::external_body]
pub fn add10(ctx: &EvalContext, a: &Ct10, b: &Ct10) -> (r: Ct10)
    requires
        a.cx() == ctx.id(),
        b.cx() == ctx.id(),
    ensures
        r.pt() == m10(a.pt() + b.pt()),
        r.cx() == ctx.id(),
{
    let _ = ctx;
    Ct10 { ct: Cipher10 { ct: &a.ct.ct + &b.ct.ct }, pt: unknown(), cx: unknown() }
}

/// Relies on FheUint10's Sub: the difference is modular, wrapping below
/// zero.
#[verifier::external_body]
pub fn sub10(ctx: &EvalContext, a: &Ct10, b: &Ct10) -> (r: Ct10)
    requires
        a.cx() == ctx.id(),
        b.cx() == ctx.id(),
    ensures
        r.pt() == m10(a.pt() - b.pt()),
        r.cx() == ctx.id(),
{
    let _ = ctx;
    Ct10 { ct: Cipher10 { ct: &a.ct.ct - &b.ct.ct }, pt: unknown(), cx: unknown() }
}

/// Relies on FheUint10's Mul: the product is modular, wrapping on overflow.
#[verifier::external_body]
pub fn mul10(ctx: &EvalContext, a: &Ct10, b: &Ct10) -> (r: Ct10)
    requires
        a.cx() == ctx.id(),
        b.cx() == ctx.id(),
    ensures
        r.pt() == m10(a.pt() * b.pt()),
        r.cx() == ctx.id(),
{
    let _ = ctx;
    Ct10 { ct: Cipher10 { ct: &a.ct.ct * &b.ct.ct }, pt: unknown(), cx: unknown() }
}

/// Relies on FheUint10's FheOrd: the result decrypts to the strict
/// greater-than comparison of the hidden values.
#[verifier::external_body]
pub fn gt10(ctx: &EvalContext, a: &Ct10, b: &Ct10) -> (r: CtBool)
    requires
        a.cx() == ctx.id(),
        b.cx() == ctx.id(),
    ensures
        r.pt() == (a.pt() > b.pt()),
        r.cx() == ctx.id(),
{
    let _ = ctx;
    CtBool { ct: a.ct.ct.gt(&b.ct.ct), pt: unknown(), cx: unknown() }
}

/// Relies on FheUint10's FheOrd: the result decrypts to the
/// less-than-or-equal comparison of the hidden values.
#[verifier::external_body]
pub fn le10(ctx: &EvalContext, a: &Ct10, b: &Ct10) -> (r: CtBool)
    requires
        a.cx() == ctx.id(),
        b.cx() == ctx.id(),
    ensures
        r.pt() == (a.pt() <= b.pt()),
        r.cx() == ctx.id(),
{
    let _ = ctx;
    CtBool { ct: a.ct.ct.le(&b.ct.ct), pt: unknown(), cx: unknown() }
}

/// Relies on FheBool's IfThenElse over FheUint10: the result decrypts to the
/// first value when the hidden condition is true, to the second otherwise.
/// Both branches are evaluated unconditionally; the engine cannot skip
/// encrypted work on a hidden condition.
#[verifier::external_body]
pub fn select10(ctx: &EvalContext, c: &CtBool, a: &Ct10, b: &Ct10) -> (r: Ct10)
    requires
        c.cx() == ctx.id(),
        a.cx() == ctx.id(),
        b.cx() == ctx.id(),
    ensures
        r.pt() == (if c.pt() {
            a.pt()
        } else {
            b.pt()
        }),
        r.cx() == ctx.id(),
{
    let _ = ctx;
    Ct10 { ct: Cipher10 { ct: c.ct.if_then_else(&a.ct.ct, &b.ct.ct) }, pt: unknown(), cx: unknown() }
}

/// Relies on FheUint10's CastFrom<FheBool>: the cast decrypts to 1 for a
/// true condition and 0 for a false one.
#[verifier::external_body]
pub fn cast_bool_to_10(ctx: &EvalContext, c: &CtBool) -> (r: Ct10)
    requires
        c.cx() == ctx.id(),
    ensures
        r.pt() == (if c.pt() {
            1u16
        } else {
            0u16
        }),
        r.cx() == ctx.id(),
{
    let _ = ctx;
    Ct10 {
        ct: Cipher10 { ct: tfhe::FheUint10::cast_from(c.ct.clone()) },
        pt: unknown(),
        cx: unknown(),
    }
}

// 16-bit operations.

/// Relies on FheUint16's Add: the sum is modular, wrapping on overflow.
#[verifier::external_body]
pub fn add16(ctx: &EvalContext, a: &Ct16, b: &Ct16) -> (r: Ct16)
    requires
        a.cx() == ctx.id(),
        b.cx() == ctx.id(),
    ensures
        r.pt() == m16(a.pt() + b.pt()),
        r.cx() == ctx.id(),
{
    let _ = ctx;
    Ct16 { ct: Cipher16 { ct: &a.ct.ct + &b.ct.ct }, pt: unknown(), cx: unknown() }
}

/// Relies on FheUint16's Add with a clear right-hand side: the sum is
/// modular, wrapping on overflow.
#[verifier::external_body]
pub fn add16_scalar(ctx: &EvalContext, a: &Ct16, k: u16) -> (r: Ct16)
    requires
        a.cx() == ctx.id(),
    ensures
        r.pt() == m16(a.pt() + k),
        r.cx() == ctx.id(),
{
    let _ = ctx;
    Ct16 { ct: Cipher16 { ct: &a.ct.ct + k }, pt: unknown(), cx: unknown() }
}

/// Relies on FheUint16's Mul with a clear right-hand side: the product is
/// modular, wrapping on overflow.
#[verifier::external_body]
pub fn mul16_scalar(ctx: &EvalContext, a: &Ct16, k: u16) -> (r: Ct16)
    requires
        a.cx() == ctx.id(),
    ensures
        r.pt() == m16(a.pt() * k),
        r.cx() == ctx.id(),
{
    let _ = ctx;
    Ct16 { ct: Cipher16 { ct: &a.ct.ct * k }, pt: unknown(), cx: unknown() }
}

/// Relies on FheUint16's Div with a clear right-hand side: the quotient is
/// the truncating integer division. The engine panics on a clear divisor of
/// zero, so that input is excluded.
#[verifier::external_body]
pub fn div16_scalar(ctx: &EvalContext, a: &Ct16, k: u16) -> (r: Ct16)
    requires
        a.cx() == ctx.id(),
        k > 0,
    ensures
        r.pt() == a.pt() / k,
        r.cx() == ctx.id(),
{
    let _ = ctx;
    Ct16 { ct: Cipher16 { ct: &a.ct.ct / k }, pt: unknown(), cx: unknown() }
}

/// Relies on FheUint16's FheMin: the result decrypts to the smaller hidden
/// value.
#[verifier::external_body]
pub fn min16(ctx: &EvalContext, a: &Ct16, b: &Ct16) -> (r: Ct16)
    requires
        a.cx() == ctx.id(),
        b.cx() == ctx.id(),
    ensures
        r.pt() == (if a.pt() <= b.pt() {
            a.pt()
        } else {
            b.pt()
        }),
        r.cx() == ctx.id(),
{
    let _ = ctx;
    Ct16 { ct: Cipher16 { ct: a.ct.ct.min(&b.ct.ct) }, pt: unknown(), cx: unknown() }
}

/// Relies on FheUint16's FheMax: the result decrypts to the larger hidden
/// value.
#[verifier::external_body]
pub fn max16(ctx: &EvalContext, a: &Ct16, b: &Ct16) -> (r: Ct16)
    requires
        a.cx() == ctx.id(),
        b.cx() == ctx.id(),
    ensures
        r.pt() == (if a.pt() >= b.pt() {
            a.pt()
        } else {
            b.pt()
        }),
        r.cx() == ctx.id(),
{
    let _ = ctx;
    Ct16 { ct: Cipher16 { ct: a.ct.ct.max(&b.ct.ct) }, pt: unknown(), cx: unknown() }
}

/// Relies on FheUint16's FheOrd: the result decrypts to the strict
/// greater-than comparison of the hidden values.
#[verifier::external_body]
pub fn gt16(ctx: &EvalContext, a: &Ct16, b: &Ct16) -> (r: CtBool)
    requires
        a.cx() == ctx.id(),
        b.cx() == ctx.id(),
    ensures
        r.pt() == (a.pt() > b.pt()),
        r.cx() == ctx.id(),
{
    let _ = ctx;
    CtBool { ct: a.ct.ct.gt(&b.ct.ct), pt: unknown(), cx: unknown() }
}

/// Relies on FheUint16's FheOrd: the result decrypts to the
/// less-than-or-equal comparison of the hidden values.
#[verifier::external_body]
pub fn le16(ctx: &EvalContext, a: &Ct16, b: &Ct16) -> (r: CtBool)
    requires
        a.cx() == ctx.id(),
        b.cx() == ctx.id(),
    ensures
        r.pt() == (a.pt() <= b.pt()),
        r.cx() == ctx.id(),
{
    let _ = ctx;
    CtBool { ct: a.ct.ct.le(&b.ct.ct), pt: unknown(), cx: unknown() }
}

/// Relies on FheUint16's CastFrom<FheUint10>: widening keeps the hidden
/// value.
#[verifier::external_body]
pub fn cast_10_to_16(ctx: &EvalContext, a: &Ct10) -> (r: Ct16)
    requires
        a.cx() == ctx.id(),
        a.inv(),
    ensures
        r.pt() == a.pt(),
        r.cx() == ctx.id(),
{
    let _ = ctx;
    Ct16 {
        ct: Cipher16 { ct: tfhe::FheUint16::cast_from(a.ct.ct.clone()) },
        pt: unknown(),
        cx: unknown(),
    }
}

/// Relies on FheUint16's Clone: the copy decrypts to the same value.
#[verifier::external_body]
pub fn clone16(a: &Ct16) -> (r: Ct16)
    ensures
        r.pt() == a.pt(),
        r.cx() == a.cx(),
{
    Ct16 { ct: Cipher16 { ct: a.ct.ct.clone() }, pt: unknown(), cx: unknown() }
}

// 8-bit operations.

/// Relies on FheUint8's FheTrivialEncrypt: a trivial encryption decrypts to
/// the given public constant.
#[verifier::external_body]
pub fn trivial8(ctx: &EvalContext, v: u8) -> (r: Ct8)
    ensures
        r.pt() == v,
        r.cx() == ctx.id(),
{
    let _ = ctx;
    Ct8 { ct: Cipher8 { ct: tfhe::FheUint8::encrypt_trivial(v) }, pt: unknown(), cx: unknown() }
}

/// Relies on FheUint8's Add: the sum is modular, wrapping on overflow.
#[verifier::external_body]
pub fn add8(ctx: &EvalContext, a: &Ct8, b: &Ct8) -> (r: Ct8)
    requires
        a.cx() == ctx.id(),
        b.cx() == ctx.id(),
    ensures
        r.pt() == m8(a.pt() + b.pt()),
        r.cx() == ctx.id(),
{
    let _ = ctx;
    Ct8 { ct: Cipher8 { ct: &a.ct.ct + &b.ct.ct }, pt: unknown(), cx: unknown() }
}

/// Relies on FheUint8's Add with a clear right-hand side: the sum is
/// modular, wrapping on overflow.
#[verifier::external_body]
pub fn add8_scalar(ctx: &EvalContext, a: &Ct8, k: u8) -> (r: Ct8)
    requires
        a.cx() == ctx.id(),
    ensures
        r.pt() == m8(a.pt() + k),
        r.cx() == ctx.id(),
{
    let _ = ctx;
    Ct8 { ct: Cipher8 { ct: &a.ct.ct + k }, pt: unknown(), cx: unknown() }
}

/// Relies on FheUint8's Mul: the product is modular, wrapping on overflow.
#[verifier::external_body]
pub fn mul8(ctx: &EvalContext, a: &Ct8, b: &Ct8) -> (r: Ct8)
    requires
        a.cx() == ctx.id(),
        b.cx() == ctx.id(),
    ensures
        r.pt() == m8(a.pt() * b.pt()),
        r.cx() == ctx.id(),
{
    let _ = ctx;
    Ct8 { ct: Cipher8 { ct: &a.ct.ct * &b.ct.ct }, pt: unknown(), cx: unknown() }
}

/// Relies on FheUint8's Mul with a clear right-hand side: the product is
/// modular, wrapping on overflow.
#[verifier::external_body]
pub fn mul8_scalar(ctx: &EvalContext, a: &Ct8, k: u8) -> (r: Ct8)
    requires
        a.cx() == ctx.id(),
    ensures
        r.pt() == m8(a.pt() * k),
        r.cx() == ctx.id(),
{
    let _ = ctx;
    Ct8 { ct: Cipher8 { ct: &a.ct.ct * k }, pt: unknown(), cx: unknown() }
}

/// Relies on FheUint8's Div between ciphertexts: the quotient is the
/// truncating integer division. The engine defines division by an encrypted
/// zero as the all-ones value and asks callers not to rely on it, so that
/// input is excluded.
#[verifier::external_body]
pub fn div8(ctx: &EvalContext, a: &Ct8, b: &Ct8) -> (r: Ct8)
    requires
        a.cx() == ctx.id(),
        b.cx() == ctx.id(),
        b.pt() > 0,
    ensures
        r.pt() == a.pt() / b.pt(),
        r.cx() == ctx.id(),
{
    let _ = ctx;
    Ct8 { ct: Cipher8 { ct: &a.ct.ct / &b.ct.ct }, pt: unknown(), cx: unknown() }
}

/// Relies on FheUint8's CastFrom<FheBool>: the cast decrypts to 1 for a
/// true condition and 0 for a false one.
#[verifier::external_body]
pub fn cast_bool_to_8(ctx: &EvalContext, c: &CtBool) -> (r: Ct8)
    requires
        c.cx() == ctx.id(),
    ensures
        r.pt() == (if c.pt() {
            1u8
        } else {
            0u8
        }),
        r.cx() == ctx.id(),
{
    let _ = ctx;
    Ct8 {
        ct: Cipher8 { ct: tfhe::FheUint8::cast_from(c.ct.clone()) },
        pt: unknown(),
        cx: unknown(),
    }
}

// 64-bit operations.

/// Relies on FheUint64's FheTrivialEncrypt: a trivial encryption decrypts to
/// the given public constant.
#[verifier::external_body]
pub fn trivial64(ctx: &EvalContext, v: u64) -> (r: Ct64)
    ensures
        r.pt() == v,
        r.cx() == ctx.id(),
{
    let _ = ctx;
    Ct64 { ct: Cipher64 { ct: tfhe::FheUint64::encrypt_trivial(v) }, pt: unknown(), cx: unknown() }
}

/// Relies on FheUint64's Add: the sum is modular, wrapping on overflow.
#[verifier::external_body]
pub fn add64(ctx: &EvalContext, a: &Ct64, b: &Ct64) -> (r: Ct64)
    requires
        a.cx() == ctx.id(),
        b.cx() == ctx.id(),
    ensures
        r.pt() == m64(a.pt() + b.pt()),
        r.cx() == ctx.id(),
{
    let _ = ctx;
    Ct64 { ct: Cipher64 { ct: &a.ct.ct + &b.ct.ct }, pt: unknown(), cx: unknown() }
}

/// Relies on FheUint64's Add with a clear right-hand side: the sum is
/// modular, wrapping on overflow.
#[verifier::external_body]
pub fn add64_scalar(ctx: &EvalContext, a: &Ct64, k: u64) -> (r: Ct64)
    requires
        a.cx() == ctx.id(),
    ensures
        r.pt() == m64(a.pt() + k),
        r.cx() == ctx.id(),
{
    let _ = ctx;
    Ct64 { ct: Cipher64 { ct: &a.ct.ct + k }, pt: unknown(), cx: unknown() }
}

/// Relies on FheUint64's Mul: the product is modular, wrapping on overflow.
#[verifier::external_body]
pub fn mul64(ctx: &EvalContext, a: &Ct64, b: &Ct64) -> (r: Ct64)
    requires
        a.cx() == ctx.id(),
        b.cx() == ctx.id(),
    ensures
        r.pt() == m64(a.pt() * b.pt()),
        r.cx() == ctx.id(),
{
    let _ = ctx;
    Ct64 { ct: Cipher64 { ct: &a.ct.ct * &b.ct.ct }, pt: unknown(), cx: unknown() }
}

/// Relies on FheUint64's Mul with a clear right-hand side: the product is
/// modular, wrapping on overflow.
#[verifier::external_body]
pub fn mul64_scalar(ctx: &EvalContext, a: &Ct64, k: u64) -> (r: Ct64)
    requires
        a.cx() == ctx.id(),
    ensures
        r.pt() == m64(a.pt() * k),
        r.cx() == ctx.id(),
{
    let _ = ctx;
    Ct64 { ct: Cipher64 { ct: &a.ct.ct * k }, pt: unknown(), cx: unknown() }
}

/// Relies on FheUint64's Div between ciphertexts: the quotient is the
/// truncating integer division. The engine defines division by an encrypted
/// zero as the all-ones value and asks callers not to rely on it, so that
/// input is excluded.
#[verifier::external_body]
pub fn div64(ctx: &EvalContext, a: &Ct64, b: &Ct64) -> (r: Ct64)
    requires
        a.cx() == ctx.id(),
        b.cx() == ctx.id(),
        b.pt() > 0,
    ensures
        r.pt() == a.pt() / b.pt(),
        r.cx() == ctx.id(),
{
    let _ = ctx;
    Ct64 { ct: Cipher64 { ct: &a.ct.ct / &b.ct.ct }, pt: unknown(), cx: unknown() }
}

/// Relies on FheUint64's BitAnd: the result decrypts to the bitwise
/// conjunction of the hidden values.
#[verifier::external_body]
pub fn bitand64(ctx: &EvalContext, a: &Ct64, b: &Ct64) -> (r: Ct64)
    requires
        a.cx() == ctx.id(),
        b.cx() == ctx.id(),
    ensures
        r.pt() == (a.pt() & b.pt()),
        r.cx() == ctx.id(),
{
    let _ = ctx;
    Ct64 { ct: Cipher64 { ct: &a.ct.ct & &b.ct.ct }, pt: unknown(), cx: unknown() }
}

/// Relies on FheUint64's Shr with a clear shift amount: the result decrypts
/// to the logical right shift. Amounts of the bit width or more are
/// excluded, as Rust's shift is not defined for them.
#[verifier::external_body]
pub fn shr64_scalar(ctx: &EvalContext, a: &Ct64, k: u64) -> (r: Ct64)
    requires
        a.cx() == ctx.id(),
        k < 64,
    ensures
        r.pt() == (a.pt() >> k),
        r.cx() == ctx.id(),
{
    let _ = ctx;
    Ct64 { ct: Cipher64 { ct: &a.ct.ct >> k }, pt: unknown(), cx: unknown() }
}

/// Relies on FheUint64's FheOrd: the result decrypts to the strict
/// greater-than comparison of the hidden values.
#[verifier::external_body]
pub fn gt64(ctx: &EvalContext, a: &Ct64, b: &Ct64) -> (r: CtBool)
    requires
        a.cx() == ctx.id(),
        b.cx() == ctx.id(),
    ensures
        r.pt() == (a.pt() > b.pt()),
        r.cx() == ctx.id(),
{
    let _ = ctx;
    CtBool { ct: a.ct.ct.gt(&b.ct.ct), pt: unknown(), cx: unknown() }
}

/// Relies on FheUint64's CastFrom<FheBool>: the cast decrypts to 1 for a
/// true condition and 0 for a false one.
#[verifier::external_body]
pub fn cast_bool_to_64(ctx: &EvalContext, c: &CtBool) -> (r: Ct64)
    requires
        c.cx() == ctx.id(),
    ensures
        r.pt() == (if c.pt() {
            1u64
        } else {
            0u64
        }),
        r.cx() == ctx.id(),
{
    let _ = ctx;
    Ct64 {
        ct: Cipher64 { ct: tfhe::FheUint64::cast_from(c.ct.clone()) },
        pt: unknown(),
        cx: unknown(),
    }
}

/// Relies on FheUint64's Clone: the copy decrypts to the same value.
#[verifier::external_body]
pub fn clone64(a: &Ct64) -> (r: Ct64)
    ensures
        r.pt() == a.pt(),
        r.cx() == a.cx(),
{
    Ct64 { ct: Cipher64 { ct: a.ct.ct.clone() }, pt: unknown(), cx: unknown() }
}

} // verus!
