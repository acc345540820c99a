//! The pairing facade: preparing every twist input, running the
//! multi-Miller loop and the final exponentiation, and asserting that the
//! pairing product is the identity.

use vstd::prelude::*;
use crate::fq::Fq;
use crate::fq2::Fq2;
use crate::fq12::{Fq6, Fq12, Fq12V, fq12_one, fq12_one_v};
use crate::final_exp::{final_exp_ok, final_exp_v};
use crate::pairing::{CurveFamily, PairingContext, PairingError, TermV, mml_v, prepare_g2_v,
    terms_v, terms_wf};
use crate::points::{G1Affine, G1V, G2Affine, G2AffV, G2Prepared};

verus! {

/// The integer model of one pairing input pair.
pub ghost struct PairV {
    pub p: G1V,
    pub q: G2AffV,
}

pub open spec fn pairs_v(ts: Seq<(G1Affine, G2Affine)>) -> Seq<PairV> {
    ts.map_values(|t: (G1Affine, G2Affine)| PairV { p: t.0@, q: t.1@ })
}

pub open spec fn pairs_wf(ts: Seq<(G1Affine, G2Affine)>) -> bool {
    forall|k: int| 0 <= k < ts.len() ==> ((#[trigger] ts[k]).0.wf() && ts[k].1.wf())
}

/// No G2 operand is the identity; the gadget rejects identity inputs.
pub open spec fn pairs_ok(ts: Seq<PairV>) -> bool {
    forall|k: int| 0 <= k < ts.len() ==> !(#[trigger] ts[k]).q.z
}

/// Each pair with its twist point replaced by the prepared coefficient
/// sequence.
pub open spec fn prepared_terms_v(ts: Seq<PairV>) -> Seq<TermV> {
    ts.map_values(|t: PairV| TermV { p: t.p, cs: prepare_g2_v(t.q) })
}

/// Whether the pairing of the given terms is defined: the Miller-loop
/// accumulator must be invertible for the final exponentiation.
pub open spec fn pairing_defined(ts: Seq<PairV>) -> bool {
    final_exp_ok(mml_v(prepared_terms_v(ts)))
}

/// The pairing product of the terms: Miller loop then final exponentiation.
pub open spec fn pairing_v(ts: Seq<PairV>) -> Fq12V {
    final_exp_v(mml_v(prepared_terms_v(ts)))
}

/// Two canonical base-field elements denoting the same integer are equal.
pub proof fn lemma_fq_view_injective(a: Fq, b: Fq)
    requires
        a@ == b@,
    ensures
        a == b,
{
    assert(a.l3 == b.l3 && a.l2 == b.l2 && a.l1 == b.l1 && a.l0 == b.l0);
}

pub proof fn lemma_fq2_view_injective(a: Fq2, b: Fq2)
    requires
        a@ == b@,
    ensures
        a == b,
{
    lemma_fq_view_injective(a.c0, b.c0);
    lemma_fq_view_injective(a.c1, b.c1);
}

pub proof fn lemma_fq6_view_injective(a: Fq6, b: Fq6)
    requires
        a@ == b@,
    ensures
        a == b,
{
    lemma_fq2_view_injective(a.c0, b.c0);
    lemma_fq2_view_injective(a.c1, b.c1);
    lemma_fq2_view_injective(a.c2, b.c2);
}

/// Two degree-12 elements with the same integer model are equal, so the
/// executable identity test decides equality of the models.
pub proof fn lemma_fq12_view_injective(a: Fq12, b: Fq12)
    requires
        a@ == b@,
    ensures
        a == b,
{
    lemma_fq6_view_injective(a.c0, b.c0);
    lemma_fq6_view_injective(a.c1, b.c1);
}

impl PairingContext {
    /// Prepares every twist input, then runs the multi-Miller loop and the
    /// final exponentiation over all terms.
    pub fn pairing(&mut self, terms: &Vec<(G1Affine, G2Affine)>) -> (r: Result<
        Fq12,
        PairingError,
    >)
        requires
            pairs_wf(terms@),
        ensures
            *final(self) == *old(self),
            match r {
                Ok(v) => old(self).family == CurveFamily::Bn254 && pairs_ok(pairs_v(terms@))
                    && pairing_defined(pairs_v(terms@)) && v.wf() && v@ == pairing_v(
                    pairs_v(terms@),
                ),
                Err(e) => (old(self).family != CurveFamily::Bn254 && e
                    == PairingError::NotImplemented) || (old(self).family
                    == CurveFamily::Bn254 && e == PairingError::Synthesis && !(pairs_ok(
                    pairs_v(terms@),
                ) && pairing_defined(pairs_v(terms@)))),
            },
    {
        let ghost psv = pairs_v(terms@);
        let mut prepared: Vec<(G1Affine, G2Prepared)> = Vec::new();
        let n = terms.len();
        let mut k: usize = 0;
        while k < n
            invariant
                pairs_wf(terms@),
                psv == pairs_v(terms@),
                n == terms@.len(),
                k <= n,
                *self == *old(self),
                terms_wf(prepared@),
                terms_v(prepared@) == prepared_terms_v(psv).take(k as int),
                forall|j: int| 0 <= j < k ==> !(#[trigger] psv[j]).q.z,
            decreases n - k,
        {
            match self.prepare_g2(&terms[k].1) {
                Ok(p) => {
                    let ghost prepared_before = prepared@;
                    prepared.push((terms[k].0, p));
                    proof {
                        let kk = k as int;
                        assert(psv.len() == n as int);
                        assert(terms_v(prepared_before).len() == kk);
                        assert(prepared_before.len() == kk);
                        assert(prepared@ == prepared_before.push((terms@[kk].0, p)));
                        assert(prepared@.len() == kk + 1);
                        assert(psv[kk] == (PairV { p: terms@[kk].0@, q: terms@[kk].1@ }));
                        assert(prepared_terms_v(psv)[kk] == (TermV {
                            p: psv[kk].p,
                            cs: prepare_g2_v(psv[kk].q),
                        }));
                        assert forall|j: int| 0 <= j < kk + 1 implies #[trigger] terms_v(
                            prepared@,
                        )[j] == prepared_terms_v(psv).take(kk + 1)[j] by {
                            assert(terms_v(prepared@)[j] == (TermV {
                                p: prepared@[j].0@,
                                cs: prepared@[j].1@,
                            }));
                            if j < kk {
                                assert(terms_v(prepared_before)[j] == prepared_terms_v(
                                    psv,
                                ).take(kk)[j]);
                                assert(terms_v(prepared_before)[j] == (TermV {
                                    p: prepared_before[j].0@,
                                    cs: prepared_before[j].1@,
                                }));
                            }
                        }
                        assert(terms_v(prepared@) =~= prepared_terms_v(psv).take(kk + 1));
                    }
                },
                Err(e) => {
                    proof {
                        if e == PairingError::Synthesis {
                            assert(psv[k as int].q.z);
                            assert(!pairs_ok(psv));
                        }
                    }
                    return Err(e);
                },
            }
            k = k + 1;
        }
        proof {
            assert(prepared_terms_v(psv).take(n as int) =~= prepared_terms_v(psv));
        }
        let f = match self.multi_miller_loop(&prepared) {
            Ok(v) => v,
            Err(e) => {
                return Err(e);
            },
        };
        self.final_exponentiation(&f)
    }

    /// Computes the pairing product and asserts it equals the
    /// multiplicative identity of the target field. A product different
    /// from one does not abort the synthesis: it clears `satisfied`, the
    /// model of an identity constraint that verification would reject.
    pub fn check_pairing(&mut self, terms: &Vec<(G1Affine, G2Affine)>) -> (r: Result<
        (),
        PairingError,
    >)
        requires
            pairs_wf(terms@),
        ensures
            final(self).family == old(self).family,
            match r {
                Ok(()) => old(self).family == CurveFamily::Bn254 && pairs_ok(pairs_v(terms@))
                    && pairing_defined(pairs_v(terms@)) && final(self).satisfied == (old(
                    self,
                ).satisfied && pairing_v(pairs_v(terms@)) == fq12_one_v()),
                Err(e) => *final(self) == *old(self) && ((old(self).family
                    != CurveFamily::Bn254 && e == PairingError::NotImplemented) || (old(
                    self,
                ).family == CurveFamily::Bn254 && e == PairingError::Synthesis && !(pairs_ok(
                    pairs_v(terms@),
                ) && pairing_defined(pairs_v(terms@))))),
            },
    {
        let res = match self.pairing(terms) {
            Ok(v) => v,
            Err(e) => {
                return Err(e);
            },
        };
        let one = fq12_one();
        let eq = res == one;
        proof {
            if res@ == fq12_one_v() {
                lemma_fq12_view_injective(res, one);
            }
        }
        self.satisfied = self.satisfied && eq;
        Ok(())
    }
}

} // verus!
