//! Aggregate-statistics circuit: running minimum, maximum and truncating
//! mean over a non-empty sequence of encrypted 16-bit values.

use vstd::prelude::*;

use crate::engine::{add16, clone16, max16, min16, div16_scalar, Ct16, EvalContext};
use crate::model::m16;
use crate::CircuitError;

verus! {

/// The plaintext models of a sequence of encrypted 16-bit values.
pub open spec fn pts16(s: Seq<Ct16>) -> Seq<u16> {
    s.map_values(|c: Ct16| c.pt())
}

/// All values of the sequence belong to the given context.
pub open spec fn all16_in(s: Seq<Ct16>, ctx: EvalContext) -> bool {
    forall|i: int| 0 <= i < s.len() ==> s[i].cx() == ctx.id()
}

/// Smallest element of a non-empty sequence.
pub open spec fn seq_min16(xs: Seq<u16>) -> u16
    decreases xs.len(),
{
    if xs.len() <= 1 {
        xs[0]
    } else if xs.last() < seq_min16(xs.drop_last()) {
        xs.last()
    } else {
        seq_min16(xs.drop_last())
    }
}

/// Largest element of a non-empty sequence.
pub open spec fn seq_max16(xs: Seq<u16>) -> u16
    decreases xs.len(),
{
    if xs.len() <= 1 {
        xs[0]
    } else if xs.last() > seq_max16(xs.drop_last()) {
        xs.last()
    } else {
        seq_max16(xs.drop_last())
    }
}

/// Sum of the sequence as the 16-bit engine computes it: modular, wrapping
/// on overflow.
pub open spec fn seq_sum16(xs: Seq<u16>) -> u16
    decreases xs.len(),
{
    if xs.len() == 0 {
        0u16
    } else {
        m16(seq_sum16(xs.drop_last()) + xs.last())
    }
}

/// Sum of the sequence as an unbounded integer.
pub open spec fn seq_total16(xs: Seq<u16>) -> int
    decreases xs.len(),
{
    if xs.len() == 0 {
        0int
    } else {
        seq_total16(xs.drop_last()) + xs.last()
    }
}

/// Seeds minimum, maximum and sum with the first element, then folds the
/// rest in with oblivious two-way comparisons and a modular sum; finally
/// divides by the public count. The count is public, so the division is
/// ciphertext-by-plaintext.
pub fn compute_min_max_avg(ctx: &EvalContext, values: &Vec<Ct16>) -> (r: (Ct16, Ct16, Ct16))
    requires
        values@.len() > 0,
        values@.len() <= u16::MAX,
        all16_in(values@, *ctx),
    ensures
        r.0.pt() == seq_min16(pts16(values@)),
        r.1.pt() == seq_max16(pts16(values@)),
        r.2.pt() == seq_sum16(pts16(values@)) / (values@.len() as u16),
        r.0.cx() == ctx.id(),
        r.1.cx() == ctx.id(),
        r.2.cx() == ctx.id(),
{
    let ghost all: Seq<u16> = pts16(values@);
    let first = &values[0];
    let mut mn = clone16(first);
    let mut mx = clone16(first);
    let mut sum = clone16(first);
    proof {
        lemma_one_element_fold16(all);
    }
    let mut i: usize = 1;
    while i < values.len()
        invariant
            1 <= i <= values@.len(),
            values@.len() <= u16::MAX,
            all16_in(values@, *ctx),
            all == pts16(values@),
            mn.cx() == ctx.id(),
            mx.cx() == ctx.id(),
            sum.cx() == ctx.id(),
            mn.pt() == seq_min16(all.take(i as int)),
            mx.pt() == seq_max16(all.take(i as int)),
            sum.pt() == seq_sum16(all.take(i as int)),
        decreases values@.len() - i,
    {
        let x = &values[i];
        proof {
            assert(all.take(i + 1).drop_last() =~= all.take(i as int));
            assert(all.take(i + 1).last() == x.pt());
        }
        mn = min16(ctx, &mn, x);
        mx = max16(ctx, &mx, x);
        sum = add16(ctx, &sum, x);
        i = i + 1;
    }
    proof {
        assert(all.take(i as int) =~= all);
    }
    let count: u16 = values.len() as u16;
    let mean = div16_scalar(ctx, &sum, count);
    (mn, mx, mean)
}

/// Evaluates the aggregate-statistics circuit.
///
/// An empty input is a precondition violation and is rejected before any
/// homomorphic work begins; it is the one error this circuit can report.
/// The count must fit the 16-bit width, since the mean divides by the
/// public count at that width.
pub fn evaluate_aggregate_stats(ctx: &EvalContext, values: &Vec<Ct16>) -> (r: Result<
    (Ct16, Ct16, Ct16),
    CircuitError,
>)
    requires
        values@.len() <= u16::MAX,
        all16_in(values@, *ctx),
    ensures
        r is Err <==> values@.len() == 0,
        r is Err ==> r == Err::<(Ct16, Ct16, Ct16), CircuitError>(CircuitError::EmptyInput),
        r matches Ok(t) ==> {
            &&& t.0.pt() == seq_min16(pts16(values@))
            &&& t.1.pt() == seq_max16(pts16(values@))
            &&& t.2.pt() == seq_sum16(pts16(values@)) / (values@.len() as u16)
            &&& t.0.cx() == ctx.id()
            &&& t.1.cx() == ctx.id()
            &&& t.2.cx() == ctx.id()
        },
{
    if values.len() == 0 {
        return Err(CircuitError::EmptyInput);
    }
    Ok(compute_min_max_avg(ctx, values))
}

/// Reference evaluation of the same statistics on plaintext values, for
/// checking circuit outputs against: the exact plaintext counterpart of
/// [`evaluate_aggregate_stats`].
pub fn clear_aggregate_stats(values: &Vec<u16>) -> (r: Result<(u16, u16, u16), CircuitError>)
    requires
        values@.len() <= u16::MAX,
    ensures
        r is Err <==> values@.len() == 0,
        r is Err ==> r == Err::<(u16, u16, u16), CircuitError>(CircuitError::EmptyInput),
        r matches Ok(t) ==> {
            &&& t.0 == seq_min16(values@)
            &&& t.1 == seq_max16(values@)
            &&& t.2 == seq_sum16(values@) / (values@.len() as u16)
        },
{
    if values.len() == 0 {
        return Err(CircuitError::EmptyInput);
    }
    let all: Ghost<Seq<u16>> = Ghost(values@);
    let mut mn = values[0];
    let mut mx = values[0];
    let mut sum = values[0];
    proof {
        lemma_one_element_fold16(all@);
    }
    let mut i: usize = 1;
    while i < values.len()
        invariant
            1 <= i <= values@.len(),
            values@.len() <= u16::MAX,
            all@ == values@,
            mn == seq_min16(all@.take(i as int)),
            mx == seq_max16(all@.take(i as int)),
            sum == seq_sum16(all@.take(i as int)),
        decreases values@.len() - i,
    {
        let x = values[i];
        proof {
            assert(all@.take(i + 1).drop_last() =~= all@.take(i as int));
            assert(all@.take(i + 1).last() == x);
        }
        if x < mn {
            mn = x;
        }
        if x > mx {
            mx = x;
        }
        let wide: u32 = sum as u32 + x as u32;
        sum = (wide % 0x1_0000) as u16;
        i = i + 1;
    }
    proof {
        assert(all@.take(i as int) =~= all@);
    }
    let count: u16 = values.len() as u16;
    Ok((mn, mx, sum / count))
}

/// On a one-element prefix, all three folds reduce to the first element.
proof fn lemma_one_element_fold16(all: Seq<u16>)
    requires
        all.len() >= 1,
    ensures
        seq_min16(all.take(1)) == all[0],
        seq_max16(all.take(1)) == all[0],
        seq_sum16(all.take(1)) == all[0],
{
    let one = all.take(1);
    assert(one.len() == 1 && one[0] == all[0]);
    assert(one.drop_last() =~= Seq::<u16>::empty());
    assert(seq_sum16(Seq::<u16>::empty()) == 0);
    assert(seq_sum16(one) == m16(0 + all[0]));
    assert(m16(all[0] as int) == all[0]);
}

/// The running minimum is a true minimum: it bounds every element from
/// below and is attained by one of them.
pub proof fn lemma_seq_min16_is_min(xs: Seq<u16>)
    requires
        xs.len() > 0,
    ensures
        forall|i: int| 0 <= i < xs.len() ==> seq_min16(xs) <= xs[i],
        exists|i: int| 0 <= i < xs.len() && seq_min16(xs) == xs[i],
    decreases xs.len(),
{
    if xs.len() > 1 {
        lemma_seq_min16_is_min(xs.drop_last());
        assert(forall|i: int| 0 <= i < xs.len() - 1 ==> xs.drop_last()[i] == xs[i]);
        let j = choose|j: int|
            0 <= j < xs.drop_last().len() && seq_min16(xs.drop_last()) == xs.drop_last()[j];
        if xs.last() < seq_min16(xs.drop_last()) {
            assert(seq_min16(xs) == xs[xs.len() - 1]);
        } else {
            assert(seq_min16(xs) == xs[j]);
        }
    } else {
        assert(seq_min16(xs) == xs[0]);
    }
}

/// The running maximum is a true maximum: it bounds every element from
/// above and is attained by one of them.
pub proof fn lemma_seq_max16_is_max(xs: Seq<u16>)
    requires
        xs.len() > 0,
    ensures
        forall|i: int| 0 <= i < xs.len() ==> xs[i] <= seq_max16(xs),
        exists|i: int| 0 <= i < xs.len() && seq_max16(xs) == xs[i],
    decreases xs.len(),
{
    if xs.len() > 1 {
        lemma_seq_max16_is_max(xs.drop_last());
        assert(forall|i: int| 0 <= i < xs.len() - 1 ==> xs.drop_last()[i] == xs[i]);
        let j = choose|j: int|
            0 <= j < xs.drop_last().len() && seq_max16(xs.drop_last()) == xs.drop_last()[j];
        if xs.last() > seq_max16(xs.drop_last()) {
            assert(seq_max16(xs) == xs[xs.len() - 1]);
        } else {
            assert(seq_max16(xs) == xs[j]);
        }
    } else {
        assert(seq_max16(xs) == xs[0]);
    }
}

/// As long as the exact sum fits the 16-bit range, the modular sum the
/// circuit computes equals it, and the circuit's mean is the exact
/// truncating mean.
pub proof fn lemma_sum16_exact_when_small(xs: Seq<u16>)
    requires
        seq_total16(xs) <= u16::MAX,
    ensures
        seq_sum16(xs) == seq_total16(xs),
    decreases xs.len(),
{
    if xs.len() > 0 {
        lemma_total16_nonneg(xs.drop_last());
        lemma_sum16_exact_when_small(xs.drop_last());
    }
}

/// The exact sum of unsigned values is never negative.
pub proof fn lemma_total16_nonneg(xs: Seq<u16>)
    ensures
        seq_total16(xs) >= 0,
    decreases xs.len(),
{
    if xs.len() > 0 {
        lemma_total16_nonneg(xs.drop_last());
    }
}

} // verus!
