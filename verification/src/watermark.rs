//! Watermark-detection circuit: sliding-window rolling-hash accumulation,
//! per-layer bit extraction, threshold decision and normalized score, all
//! over encrypted 64-bit tokens.

use vstd::prelude::*;

use crate::engine::{
    add64, add64_scalar, bitand64, cast_bool_to_64, clone64, div64, gt64, mul64, mul64_scalar,
    shr64_scalar, trivial64, Ct64, EvalContext,
};
use crate::model::m64;

verus! {

/// Multiplier of the linear-congruential rolling hash.
pub const LCG_MULT: u64 = 6364136223846793005;

/// Increment of the linear-congruential rolling hash.
pub const LCG_INC: u64 = 1;

/// Per-layer hash keys the detector was provisioned with.
pub const HASH_KEY_0: u64 = 958128024866275;

pub const HASH_KEY_1: u64 = 6668561499863873;

pub const HASH_KEY_2: u64 = 3642403660346225;

/// Number of hash layers (one per key).
pub const KEY_COUNT: usize = 3;

/// Length of the context window that precedes the scored token.
pub const CONTEXT_LEN: usize = 3;

/// Detection threshold, expressed as the integer ratio
/// `THRESHOLD_NUM / THRESHOLD_DENOM` to avoid floating point under
/// encryption.
pub const THRESHOLD_NUM: u64 = 600;

pub const THRESHOLD_DENOM: u64 = 1000;

/// Scale applied to the normalized score so it stays an integer.
pub const SCORE_SCALE: u64 = 1000000;

/// The plaintext models of a sequence of encrypted 64-bit values.
pub open spec fn pts64(s: Seq<Ct64>) -> Seq<u64> {
    s.map_values(|c: Ct64| c.pt())
}

/// All values of the sequence belong to the given context.
pub open spec fn all64_in(s: Seq<Ct64>, ctx: EvalContext) -> bool {
    forall|i: int| 0 <= i < s.len() ==> s[i].cx() == ctx.id()
}

/// One step of the rolling hash: `(acc + x) * MULT + INC`, all modulo the
/// 64-bit width. Kept opaque: its unfolded modular products are costly for
/// the solver, and only the two step implementations need them.
#[verifier::opaque]
pub open spec fn lcg_step(acc: u64, x: u64) -> u64 {
    m64(m64(m64(acc + x) * LCG_MULT) + LCG_INC)
}

/// Left-to-right rolling-hash fold of a sequence, seeded with `acc`.
pub open spec fn lcg_fold(acc: u64, data: Seq<u64>) -> u64
    decreases data.len(),
{
    if data.len() == 0 {
        acc
    } else {
        lcg_step(lcg_fold(acc, data.drop_last()), data.last())
    }
}

/// The key of a hash layer.
pub open spec fn layer_key(l: int) -> u64 {
    if l == 0 {
        HASH_KEY_0
    } else if l == 1 {
        HASH_KEY_1
    } else {
        HASH_KEY_2
    }
}

/// The watermark bit of one layer: fold the context hash, the token and the
/// layer index into the layer's key, shift right by the layer index, and
/// keep the least-significant bit.
pub open spec fn g_bit(ctx_hash: u64, tok: u64, l: int) -> u64 {
    let th = lcg_fold(layer_key(l), seq![ctx_hash, tok, l as u64]);
    let sh = if l == 0 {
        th
    } else {
        th >> (l as u64)
    };
    sh & 1
}

/// Sum of the watermark bits of the first `l` layers, accumulated the way
/// the circuit accumulates them (modular adds into a 64-bit value).
pub open spec fn g_partial(ctx_hash: u64, tok: u64, l: int) -> u64
    decreases l,
{
    if l <= 0 {
        0u64
    } else {
        m64(g_partial(ctx_hash, tok, l - 1) + g_bit(ctx_hash, tok, l - 1))
    }
}

/// Watermark evidence of one window: the bit sum over all layers, for the
/// window's context hash.
pub open spec fn window_score(window: Seq<u64>, cur: u64) -> u64 {
    g_partial(lcg_fold(HASH_KEY_0, window), cur, KEY_COUNT as int)
}

/// Watermark evidence of the window at position `i` of the token sequence.
pub open spec fn window_g(toks: Seq<u64>, i: int) -> u64 {
    window_score(toks.subrange(i, i + CONTEXT_LEN as int), toks[i + CONTEXT_LEN as int])
}

/// Total watermark evidence of the first `w` windows.
pub open spec fn total_g(toks: Seq<u64>, w: int) -> u64
    decreases w,
{
    if w <= 0 {
        0u64
    } else {
        m64(total_g(toks, w - 1) + window_g(toks, w - 1))
    }
}

/// The three outputs of the detector: flag, scaled score and total
/// evidence. A sequence too short for a single full window gets the defined
/// all-zero fallback.
pub open spec fn watermark_outputs(toks: Seq<u64>) -> (u64, u64, u64) {
    if toks.len() <= CONTEXT_LEN {
        (0u64, 0u64, 0u64)
    } else {
        let w = toks.len() - CONTEXT_LEN;
        let t = total_g(toks, w);
        let d = (w * KEY_COUNT) as u64;
        let flag = if m64(t * THRESHOLD_DENOM) > m64(d * THRESHOLD_NUM) {
            1u64
        } else {
            0u64
        };
        let score = m64(t * SCORE_SCALE) / d;
        (flag, score, t)
    }
}

/// Folds each value of `data`, in order, into the accumulator with the
/// rolling-hash step.
pub fn lcg_accumulate(ctx: &EvalContext, acc: Ct64, data: &Vec<Ct64>) -> (r: Ct64)
    requires
        acc.cx() == ctx.id(),
        all64_in(data@, *ctx),
    ensures
        r.pt() == lcg_fold(acc.pt(), pts64(data@)),
        r.cx() == ctx.id(),
{
    let ghost seed: u64 = acc.pt();
    let ghost pts: Seq<u64> = pts64(data@);
    let mut acc = acc;
    let mut i: usize = 0;
    assert(pts.take(0) =~= Seq::<u64>::empty());
    while i < data.len()
        invariant
            0 <= i <= data@.len(),
            all64_in(data@, *ctx),
            pts == pts64(data@),
            acc.cx() == ctx.id(),
            acc.pt() == lcg_fold(seed, pts.take(i as int)),
        decreases data@.len() - i,
    {
        proof {
            reveal(lcg_step);
            assert(pts.take(i + 1).drop_last() =~= pts.take(i as int));
            assert(pts.take(i + 1).last() == data@[i as int].pt());
        }
        acc = add64(ctx, &acc, &data[i]);
        acc = mul64_scalar(ctx, &acc, LCG_MULT);
        acc = add64_scalar(ctx, &acc, LCG_INC);
        i = i + 1;
    }
    proof {
        assert(pts.take(i as int) =~= pts);
    }
    acc
}

/// Least-significant bit of an encrypted value, kept encrypted.
pub fn lsb(ctx: &EvalContext, x: &Ct64) -> (r: Ct64)
    requires
        x.cx() == ctx.id(),
    ensures
        r.pt() == (x.pt() & 1),
        r.cx() == ctx.id(),
{
    let one = trivial64(ctx, 1);
    bitand64(ctx, x, &one)
}

/// Unfolds the rolling-hash fold of a three-element sequence.
proof fn lemma_lcg_fold3(acc: u64, a: u64, b: u64, c: u64)
    ensures
        lcg_fold(acc, seq![a, b, c]) == lcg_step(lcg_step(lcg_step(acc, a), b), c),
{
    let s3 = seq![a, b, c];
    assert(s3.drop_last() =~= seq![a, b]);
    assert(seq![a, b].drop_last() =~= seq![a]);
    assert(seq![a].drop_last() =~= Seq::<u64>::empty());
    assert(lcg_fold(acc, Seq::<u64>::empty()) == acc);
    assert(lcg_fold(acc, seq![a]) == lcg_step(acc, a));
    assert(lcg_fold(acc, seq![a, b]) == lcg_step(lcg_step(acc, a), b));
}

/// Evidence of one window: hash the context into the first key's seed, then
/// for every layer fold `{context hash, current token, layer index}` into
/// that layer's key, extract the layer's bit, and sum the bits.
#[verifier::rlimit(50)]
pub fn window_g_sum(ctx: &EvalContext, ctx_window: &Vec<Ct64>, cur: &Ct64, enc_keys: &Vec<
    Ct64,
>) -> (r: Ct64)
    requires
        all64_in(ctx_window@, *ctx),
        cur.cx() == ctx.id(),
        all64_in(enc_keys@, *ctx),
        enc_keys@.len() == KEY_COUNT,
        forall|l: int| 0 <= l < KEY_COUNT ==> enc_keys@[l].pt() == layer_key(l),
    ensures
        r.pt() == window_score(pts64(ctx_window@), cur.pt()),
        r.cx() == ctx.id(),
{
    let seed = clone64(&enc_keys[0]);
    proof {
        assert(enc_keys@[0].pt() == layer_key(0));
    }
    let ctx_hash = lcg_accumulate(ctx, seed, ctx_window);
    let ghost ch: u64 = ctx_hash.pt();
    proof {
        assert(ch == lcg_fold(HASH_KEY_0, pts64(ctx_window@)));
    }
    let mut g_sum = trivial64(ctx, 0);
    let mut l: usize = 0;
    while l < KEY_COUNT
        invariant
            0 <= l <= KEY_COUNT,
            all64_in(enc_keys@, *ctx),
            enc_keys@.len() == KEY_COUNT,
            forall|k: int| 0 <= k < KEY_COUNT ==> enc_keys@[k].pt() == layer_key(k),
            ctx_hash.cx() == ctx.id(),
            ctx_hash.pt() == ch,
            cur.cx() == ctx.id(),
            g_sum.cx() == ctx.id(),
            g_sum.pt() == g_partial(ch, cur.pt(), l as int),
        decreases KEY_COUNT - l,
    {
        let mut tok_data: Vec<Ct64> = Vec::new();
        tok_data.push(clone64(&ctx_hash));
        tok_data.push(clone64(cur));
        tok_data.push(trivial64(ctx, l as u64));
        let tok_hash = lcg_accumulate(ctx, clone64(&enc_keys[l]), &tok_data);
        proof {
            assert(pts64(tok_data@) =~= seq![ch, cur.pt(), l as u64]);
        }
        let shifted = if l == 0 {
            tok_hash
        } else {
            shr64_scalar(ctx, &tok_hash, l as u64)
        };
        let g = lsb(ctx, &shifted);
        assert(g.pt() == g_bit(ch, cur.pt(), l as int));
        g_sum = add64(ctx, &g_sum, &g);
        l = l + 1;
    }
    proof {
        assert(ch == lcg_fold(HASH_KEY_0, pts64(ctx_window@)));
        assert(g_sum.pt() == g_partial(ch, cur.pt(), KEY_COUNT as int));
    }
    g_sum
}

/// Runs the watermark detector over the token sequence: accumulates the
/// evidence of every full window, then forms the oblivious threshold flag
/// and the scaled score. A sequence with no full window yields the defined
/// all-zero outputs; that is a fallback, not an error. The token count
/// must leave windows times keys within the machine word, since that
/// public denominator is formed in clear arithmetic.
#[verifier::rlimit(50)]
pub fn fhe_detect(ctx: &EvalContext, enc_tokens: &Vec<Ct64>) -> (r: (Ct64, Ct64, Ct64))
    requires
        all64_in(enc_tokens@, *ctx),
        enc_tokens@.len() * KEY_COUNT <= usize::MAX,
    ensures
        ({
            let (flag, score, total) = watermark_outputs(pts64(enc_tokens@));
            r.0.pt() == flag && r.1.pt() == score && r.2.pt() == total
        }),
        r.0.cx() == ctx.id(),
        r.1.cx() == ctx.id(),
        r.2.cx() == ctx.id(),
{
    let ghost toks: Seq<u64> = pts64(enc_tokens@);
    if enc_tokens.len() <= CONTEXT_LEN {
        let zero_flag = trivial64(ctx, 0);
        let zero_score = trivial64(ctx, 0);
        let zero_total = trivial64(ctx, 0);
        return (zero_flag, zero_score, zero_total);
    }
    let windows = enc_tokens.len() - CONTEXT_LEN;
    let mut enc_keys: Vec<Ct64> = Vec::new();
    enc_keys.push(trivial64(ctx, HASH_KEY_0));
    enc_keys.push(trivial64(ctx, HASH_KEY_1));
    enc_keys.push(trivial64(ctx, HASH_KEY_2));
    let mut total = trivial64(ctx, 0);
    let mut i: usize = 0;
    while i < windows
        invariant
            0 <= i <= windows,
            windows == enc_tokens@.len() - CONTEXT_LEN,
            enc_tokens@.len() > CONTEXT_LEN,
            enc_tokens@.len() <= usize::MAX,
            all64_in(enc_tokens@, *ctx),
            toks == pts64(enc_tokens@),
            enc_keys@.len() == KEY_COUNT,
            all64_in(enc_keys@, *ctx),
            forall|k: int| 0 <= k < KEY_COUNT ==> enc_keys@[k].pt() == layer_key(k),
            total.cx() == ctx.id(),
            total.pt() == total_g(toks, i as int),
        decreases windows - i,
    {
        let mut window: Vec<Ct64> = Vec::new();
        window.push(clone64(&enc_tokens[i]));
        window.push(clone64(&enc_tokens[i + 1]));
        window.push(clone64(&enc_tokens[i + 2]));
        let g = window_g_sum(ctx, &window, &enc_tokens[i + CONTEXT_LEN], &enc_keys);
        proof {
            assert(pts64(window@) =~= toks.subrange(i as int, i + CONTEXT_LEN as int));
            assert(toks[i + CONTEXT_LEN as int] == enc_tokens@[i + CONTEXT_LEN as int].pt());
        }
        total = add64(ctx, &total, &g);
        i = i + 1;
    }
    let denom_clear: usize = windows * KEY_COUNT;
    let denom = trivial64(ctx, denom_clear as u64);
    let thr_denom = trivial64(ctx, THRESHOLD_DENOM);
    let thr_num = trivial64(ctx, THRESHOLD_NUM);
    let lhs = mul64(ctx, &total, &thr_denom);
    let rhs = mul64(ctx, &denom, &thr_num);
    let flag = gt64(ctx, &lhs, &rhs);
    let flag64 = cast_bool_to_64(ctx, &flag);
    let scale = trivial64(ctx, SCORE_SCALE);
    let numer = mul64(ctx, &total, &scale);
    let score = div64(ctx, &numer, &denom);
    (flag64, score, total)
}

/// A layer contributes at most one bit of evidence.
proof fn lemma_g_bit_bound(ctx_hash: u64, tok: u64, l: int)
    ensures
        g_bit(ctx_hash, tok, l) <= 1,
{
    let th = lcg_fold(layer_key(l), seq![ctx_hash, tok, l as u64]);
    let sh = if l == 0 {
        th
    } else {
        th >> (l as u64)
    };
    assert(sh & 1 <= 1) by (bit_vector);
}

/// A window contributes at most one bit per layer.
pub proof fn lemma_window_score_bound(window: Seq<u64>, cur: u64)
    ensures
        window_score(window, cur) <= KEY_COUNT,
{
    let ch = lcg_fold(HASH_KEY_0, window);
    lemma_g_bit_bound(ch, cur, 0);
    lemma_g_bit_bound(ch, cur, 1);
    lemma_g_bit_bound(ch, cur, 2);
    assert(g_partial(ch, cur, 0) == 0);
    assert(g_partial(ch, cur, 1) == m64(g_partial(ch, cur, 0) + g_bit(ch, cur, 0)));
    assert(g_partial(ch, cur, 1) <= 1);
    assert(g_partial(ch, cur, 2) == m64(g_partial(ch, cur, 1) + g_bit(ch, cur, 1)));
    assert(g_partial(ch, cur, 2) <= 2);
    assert(g_partial(ch, cur, 3) == m64(g_partial(ch, cur, 2) + g_bit(ch, cur, 2)));
    assert(g_partial(ch, cur, 3) <= 3);
}

/// The accumulated evidence never exceeds one bit per layer and window:
/// the bound that makes the detector's threshold ratio meaningful.
pub proof fn lemma_total_g_bound(toks: Seq<u64>, w: int)
    requires
        0 <= w,
        KEY_COUNT * w < 0x1_0000_0000_0000_0000,
    ensures
        total_g(toks, w) <= KEY_COUNT * w,
    decreases w,
{
    if w > 0 {
        lemma_total_g_bound(toks, w - 1);
        lemma_window_score_bound(
            toks.subrange(w - 1, w - 1 + CONTEXT_LEN as int),
            toks[w - 1 + CONTEXT_LEN as int],
        );
    }
}

/// Zero-window fallback: a token sequence with no full context window
/// yields exactly the all-zero flag, score and total — a defined fallback,
/// not an error.
pub proof fn lemma_zero_window_fallback(toks: Seq<u64>)
    requires
        toks.len() <= CONTEXT_LEN,
    ensures
        watermark_outputs(toks) == (0u64, 0u64, 0u64),
{
}

/// One rolling-hash step on plaintext values.
fn clear_lcg_step(acc: u64, x: u64) -> (r: u64)
    ensures
        r == lcg_step(acc, x),
{
    let s1: u64 = acc.wrapping_add(x);
    let s2: u64 = s1.wrapping_mul(LCG_MULT);
    let s3: u64 = s2.wrapping_add(LCG_INC);
    proof {
        reveal(lcg_step);
        crate::model::lemma_wrapping_add64(acc, x);
        crate::model::lemma_wrapping_mul64(s1, LCG_MULT);
        crate::model::lemma_wrapping_add64(s2, LCG_INC);
    }
    s3
}

/// Rolling-hash fold of `data[start..end]` on plaintext values.
fn clear_lcg_slice(acc: u64, data: &Vec<u64>, start: usize, end: usize) -> (r: u64)
    requires
        start <= end <= data@.len(),
    ensures
        r == lcg_fold(acc, data@.subrange(start as int, end as int)),
{
    let mut h = acc;
    let mut i: usize = start;
    assert(data@.subrange(start as int, start as int) =~= Seq::<u64>::empty());
    while i < end
        invariant
            start <= i <= end <= data@.len(),
            h == lcg_fold(acc, data@.subrange(start as int, i as int)),
        decreases end - i,
    {
        proof {
            assert(data@.subrange(start as int, i + 1).drop_last() =~= data@.subrange(
                start as int,
                i as int,
            ));
            assert(data@.subrange(start as int, i + 1).last() == data@[i as int]);
        }
        h = clear_lcg_step(h, data[i]);
        i = i + 1;
    }
    h
}

/// Reference evaluation of the detector on plaintext tokens, for checking
/// circuit outputs against: the exact plaintext counterpart of
/// [`fhe_detect`].
#[verifier::rlimit(50)]
pub fn clear_detect(tokens: &Vec<u64>) -> (r: (u64, u64, u64))
    requires
        tokens@.len() * KEY_COUNT <= usize::MAX,
    ensures
        r == watermark_outputs(tokens@),
{
    let toks: Ghost<Seq<u64>> = Ghost(tokens@);
    if tokens.len() <= CONTEXT_LEN {
        return (0, 0, 0);
    }
    let windows = tokens.len() - CONTEXT_LEN;
    let mut total: u64 = 0;
    let mut i: usize = 0;
    while i < windows
        invariant
            0 <= i <= windows,
            windows == tokens@.len() - CONTEXT_LEN,
            tokens@.len() > CONTEXT_LEN,
            tokens@.len() <= usize::MAX,
            toks@ == tokens@,
            total == total_g(toks@, i as int),
        decreases windows - i,
    {
        let ch = clear_lcg_slice(HASH_KEY_0, tokens, i, i + CONTEXT_LEN);
        let cur = tokens[i + CONTEXT_LEN];
        let mut g_sum: u64 = 0;
        let mut l: usize = 0;
        while l < KEY_COUNT
            invariant
                0 <= l <= KEY_COUNT,
                ch == lcg_fold(HASH_KEY_0, toks@.subrange(i as int, i + CONTEXT_LEN as int)),
                i + CONTEXT_LEN < toks@.len(),
                cur == toks@[i + CONTEXT_LEN as int],
                g_sum == g_partial(ch, cur, l as int),
            decreases KEY_COUNT - l,
        {
            let key: u64 = if l == 0 {
                HASH_KEY_0
            } else if l == 1 {
                HASH_KEY_1
            } else {
                HASH_KEY_2
            };
            let mut th = clear_lcg_step(key, ch);
            th = clear_lcg_step(th, cur);
            th = clear_lcg_step(th, l as u64);
            proof {
                lemma_lcg_fold3(layer_key(l as int), ch, cur, l as u64);
            }
            let sh: u64 = if l == 0 {
                th
            } else {
                th >> (l as u64)
            };
            let g: u64 = sh & 1;
            assert(g == g_bit(ch, cur, l as int));
            proof {
                crate::model::lemma_wrapping_add64(g_sum, g);
            }
            g_sum = g_sum.wrapping_add(g);
            l = l + 1;
        }
        assert(g_sum == window_g(toks@, i as int));
        proof {
            crate::model::lemma_wrapping_add64(total, g_sum);
        }
        total = total.wrapping_add(g_sum);
        i = i + 1;
    }
    let denom: u64 = (windows * KEY_COUNT) as u64;
    let lhs: u64 = total.wrapping_mul(THRESHOLD_DENOM);
    let rhs: u64 = denom.wrapping_mul(THRESHOLD_NUM);
    proof {
        crate::model::lemma_wrapping_mul64(total, THRESHOLD_DENOM);
        crate::model::lemma_wrapping_mul64(denom, THRESHOLD_NUM);
        crate::model::lemma_wrapping_mul64(total, SCORE_SCALE);
    }
    let flag: u64 = if lhs > rhs {
        1
    } else {
        0
    };
    let score: u64 = total.wrapping_mul(SCORE_SCALE) / denom;
    (flag, score, total)
}

} // verus!
