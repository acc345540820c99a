//! The algebraic laws the gadget promises beyond the per-function
//! contracts: negation is an involution on affine twist points, and the
//! prepared coefficient sequence is a function of the input point alone.

use vstd::prelude::*;
use vstd::arithmetic::div_mod::{lemma_mod_self_0, lemma_small_mod};
use crate::fq::{fq_neg_v, q};
use crate::fq2::{Fq2V, fq2_neg_v};
use crate::pairing::prepare_g2_v;
use crate::points::{CoeffsV, G2AffV, g2_neg_v};

verus! {

/// A canonical residue is in the half-open range below the modulus.
pub open spec fn residue(a: int) -> bool {
    0 <= a < q()
}

pub open spec fn fq2_residue(a: Fq2V) -> bool {
    residue(a.c0) && residue(a.c1)
}

/// Negation modulo q is an involution on canonical residues.
pub proof fn lemma_fq_neg_involutive(a: int)
    requires
        residue(a),
    ensures
        fq_neg_v(fq_neg_v(a)) == a,
{
    if a == 0 {
        lemma_mod_self_0(q());
    } else {
        lemma_small_mod((q() - a) as nat, q() as nat);
        lemma_small_mod(a as nat, q() as nat);
    }
}

pub proof fn lemma_fq2_neg_involutive(a: Fq2V)
    requires
        fq2_residue(a),
    ensures
        fq2_neg_v(fq2_neg_v(a)) == a,
{
    lemma_fq_neg_involutive(a.c0);
    lemma_fq_neg_involutive(a.c1);
}

/// Negating an affine twist point twice gives back the original point: the
/// identity flag and the first coordinate are untouched and the second
/// coordinate is negated twice.
pub proof fn lemma_g2_neg_involutive(qa: G2AffV)
    requires
        fq2_residue(qa.y),
    ensures
        g2_neg_v(g2_neg_v(qa)) == qa,
{
    lemma_fq2_neg_involutive(qa.y);
}

/// Preparing a twist point is deterministic: the emitted coefficient
/// sequence is pinned to a function of the affine input alone, so two runs
/// on the same input within one synthesis produce identical sequences.
pub proof fn lemma_prepare_g2_deterministic(qa: G2AffV, s1: Seq<CoeffsV>, s2: Seq<CoeffsV>)
    requires
        s1 == prepare_g2_v(qa),
        s2 == prepare_g2_v(qa),
    ensures
        s1 == s2,
{
}

} // verus!
