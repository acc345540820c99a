//! The witness-assisted pairing check: the Miller loop with powers of a
//! prover-supplied correction factor `c` injected at the positions of the
//! Ate loop digits, and a fixed residue witness `wi` folded in at the end,
//! replacing the hard part of the final exponentiation.
//!
//! The gadget does not validate how `(c, wi)` were derived; binding them to
//! the public inputs is the responsibility of the surrounding protocol.

use vstd::prelude::*;
use crate::fq12::{Fq12, Fq12V, fq12_frob1, fq12_frob1_v, fq12_frob2, fq12_frob2_v, fq12_frob3,
    fq12_frob3_v, fq12_inv, fq12_inv_ok, fq12_inv_v, fq12_mul, fq12_mul_v, fq12_one, fq12_one_v,
    fq12_square, fq12_square_v};
use crate::gadget::{PairV, lemma_fq12_view_injective, pairs_ok, pairs_v, pairs_wf,
    prepared_terms_v};
use crate::pairing::{CurveFamily, PairingContext, PairingError, TermV, ell_fold,
    lemma_sched_len_bounds, lemma_sched_len_mono, naf_v, prepared_len, sched_len, terms_v,
    terms_wf};
use crate::points::{G1Affine, G2Affine, G2Prepared};

verus! {

/// The witness-assisted accumulator after replaying the schedule from digit
/// position `i` down to 1: each iteration squares, folds the line
/// evaluations, and on a nonzero digit multiplies in `c_inv` or `c` before
/// the addition-row evaluations.
pub open spec fn mml_cwi_rec(
    f: Fq12V,
    cinv: Fq12V,
    c: Fq12V,
    ts: Seq<TermV>,
    i: int,
    idx: int,
) -> Fq12V
    decreases i,
{
    if i < 1 {
        f
    } else {
        let f1 = fq12_square_v(f);
        let f2 = ell_fold(f1, ts, idx, ts.len() as int);
        let d = naf_v(i - 1);
        if d == 1 {
            mml_cwi_rec(
                ell_fold(fq12_mul_v(f2, cinv), ts, idx + 1, ts.len() as int),
                cinv,
                c,
                ts,
                i - 1,
                idx + 2,
            )
        } else if d == -1 {
            mml_cwi_rec(
                ell_fold(fq12_mul_v(f2, c), ts, idx + 1, ts.len() as int),
                cinv,
                c,
                ts,
                i - 1,
                idx + 2,
            )
        } else {
            mml_cwi_rec(f2, cinv, c, ts, i - 1, idx + 1)
        }
    }
}

/// The full witness-assisted loop value: the accumulator starts at
/// `c_inv`, so that the squarings and digit injections accumulate
/// `c^-(6u+2)`; after the two correction rows the Frobenius powers of `c`
/// complete `c^-lambda`, and `wi` is folded in last.
pub open spec fn mml_cwi_v(c: Fq12V, wi: Fq12V, ts: Seq<TermV>) -> Fq12V {
    let cinv = fq12_inv_v(c);
    let fl = mml_cwi_rec(cinv, cinv, c, ts, 64, 0);
    let f1 = ell_fold(fl, ts, sched_len(64), ts.len() as int);
    let f2 = ell_fold(f1, ts, sched_len(64) + 1, ts.len() as int);
    let f3 = fq12_mul_v(
        fq12_mul_v(fq12_mul_v(f2, fq12_frob1_v(cinv)), fq12_frob2_v(c)),
        fq12_frob3_v(cinv),
    );
    fq12_mul_v(f3, wi)
}

/// The witness-assisted pairing value of affine input pairs.
pub open spec fn pairing_c_wi_v(c: Fq12V, wi: Fq12V, ts: Seq<PairV>) -> Fq12V {
    mml_cwi_v(c, wi, prepared_terms_v(ts))
}

impl PairingContext {
    /// Runs the same loop schedule as `multi_miller_loop` but starts the
    /// accumulator at `c^-1`, injects `c^-1` or `c` on every nonzero Ate
    /// digit, applies the Frobenius powers of `c` after the correction
    /// rows, and folds in `wi`.
    pub fn multi_miller_loop_c_wi(
        &mut self,
        c: &Fq12,
        wi: &Fq12,
        terms: &Vec<(G1Affine, G2Prepared)>,
    ) -> (r: Result<Fq12, PairingError>)
        requires
            c.wf(),
            wi.wf(),
            terms_wf(terms@),
        ensures
            *final(self) == *old(self),
            match r {
                Ok(v) => old(self).family == CurveFamily::Bn254 && fq12_inv_ok(c@) && v.wf()
                    && v@ == mml_cwi_v(c@, wi@, terms_v(terms@)),
                Err(e) => (old(self).family != CurveFamily::Bn254 && e
                    == PairingError::NotImplemented) || (old(self).family
                    == CurveFamily::Bn254 && !fq12_inv_ok(c@) && e == PairingError::Synthesis),
            },
    {
        if !matches!(self.family, CurveFamily::Bn254) {
            return Err(PairingError::NotImplemented);
        }
        let cinv = match fq12_inv(c) {
            Some(v) => v,
            None => {
                return Err(PairingError::Synthesis);
            },
        };
        let ghost tsv = terms_v(terms@);
        let mut f = cinv;
        let mut idx: usize = 0;
        let mut i: usize = 64;
        proof {
            lemma_sched_len_bounds(64);
        }
        while i >= 1
            invariant
                terms_wf(terms@),
                tsv == terms_v(terms@),
                c.wf(),
                cinv.wf(),
                f.wf(),
                i <= 64,
                sched_len(64) <= 128,
                idx as int == sched_len(64) - sched_len(i as int),
                mml_cwi_rec(f@, cinv@, c@, tsv, i as int, idx as int) == mml_cwi_rec(
                    cinv@,
                    cinv@,
                    c@,
                    tsv,
                    64,
                    0,
                ),
            decreases i,
        {
            proof {
                lemma_sched_len_bounds(i as int);
                lemma_sched_len_mono(i as int, 64);
                lemma_sched_len_mono(i as int - 1, i as int);
                lemma_sched_len_bounds(i as int - 1);
            }
            f = fq12_square(&f);
            f = crate::pairing::ell_row(terms, &f, idx);
            let d = crate::pairing::naf_digit(i - 1);
            if d == 1 {
                f = fq12_mul(&f, &cinv);
                f = crate::pairing::ell_row(terms, &f, idx + 1);
                idx = idx + 2;
            } else if d == -1 {
                f = fq12_mul(&f, c);
                f = crate::pairing::ell_row(terms, &f, idx + 1);
                idx = idx + 2;
            } else {
                idx = idx + 1;
            }
            i = i - 1;
        }
        proof {
            assert(mml_cwi_rec(f@, cinv@, c@, tsv, 0, idx as int) == f@);
        }
        f = crate::pairing::ell_row(terms, &f, idx);
        f = crate::pairing::ell_row(terms, &f, idx + 1);
        f = fq12_mul(
            &fq12_mul(&fq12_mul(&f, &fq12_frob1(&cinv)), &fq12_frob2(c)),
            &fq12_frob3(&cinv),
        );
        Ok(fq12_mul(&f, wi))
    }

    /// Prepares every twist input and runs the witness-assisted loop; the
    /// final exponentiation hard part is replaced by the `(c, wi)` folding.
    pub fn pairing_c_wi(
        &mut self,
        c: &Fq12,
        wi: &Fq12,
        terms: &Vec<(G1Affine, G2Affine)>,
    ) -> (r: Result<Fq12, PairingError>)
        requires
            c.wf(),
            wi.wf(),
            pairs_wf(terms@),
        ensures
            *final(self) == *old(self),
            match r {
                Ok(v) => old(self).family == CurveFamily::Bn254 && pairs_ok(pairs_v(terms@))
                    && fq12_inv_ok(c@) && v.wf() && v@ == pairing_c_wi_v(
                    c@,
                    wi@,
                    pairs_v(terms@),
                ),
                Err(e) => (old(self).family != CurveFamily::Bn254 && e
                    == PairingError::NotImplemented) || (old(self).family
                    == CurveFamily::Bn254 && e == PairingError::Synthesis && !(pairs_ok(
                    pairs_v(terms@),
                ) && fq12_inv_ok(c@))),
            },
    {
        let ghost psv = pairs_v(terms@);
        let mut prepared: Vec<(G1Affine, G2Prepared)> = Vec::new();
        let n = terms.len();
        let mut k: usize = 0;
        while k < n
            invariant
                pairs_wf(terms@),
                c.wf(),
                wi.wf(),
                psv == pairs_v(terms@),
                n == terms@.len(),
                k <= n,
                *self == *old(self),
                terms_wf(prepared@),
                terms_v(prepared@) == prepared_terms_v(psv).take(k as int),
                forall|j: int| 0 <= j < k ==> !(#[trigger] psv[j]).q.z,
            decreases n - k,
        {
            match self.prepare_g2(&terms[k].1) {
                Ok(p) => {
                    let ghost prepared_before = prepared@;
                    prepared.push((terms[k].0, p));
                    proof {
                        let kk = k as int;
                        assert(psv.len() == n as int);
                        assert(terms_v(prepared_before).len() == kk);
                        assert(prepared_before.len() == kk);
                        assert(prepared@ == prepared_before.push((terms@[kk].0, p)));
                        assert(prepared@.len() == kk + 1);
                        assert(psv[kk] == (PairV { p: terms@[kk].0@, q: terms@[kk].1@ }));
                        assert(prepared_terms_v(psv)[kk] == (TermV {
                            p: psv[kk].p,
                            cs: crate::pairing::prepare_g2_v(psv[kk].q),
                        }));
                        assert forall|j: int| 0 <= j < kk + 1 implies #[trigger] terms_v(
                            prepared@,
                        )[j] == prepared_terms_v(psv).take(kk + 1)[j] by {
                            assert(terms_v(prepared@)[j] == (TermV {
                                p: prepared@[j].0@,
                                cs: prepared@[j].1@,
                            }));
                            if j < kk {
                                assert(terms_v(prepared_before)[j] == prepared_terms_v(
                                    psv,
                                ).take(kk)[j]);
                                assert(terms_v(prepared_before)[j] == (TermV {
                                    p: prepared_before[j].0@,
                                    cs: prepared_before[j].1@,
                                }));
                            }
                        }
                        assert(terms_v(prepared@) =~= prepared_terms_v(psv).take(kk + 1));
                    }
                },
                Err(e) => {
                    proof {
                        if e == PairingError::Synthesis {
                            assert(psv[k as int].q.z);
                            assert(!pairs_ok(psv));
                        }
                    }
                    return Err(e);
                },
            }
            k = k + 1;
        }
        proof {
            assert(prepared_terms_v(psv).take(n as int) =~= prepared_terms_v(psv));
        }
        self.multi_miller_loop_c_wi(c, wi, &prepared)
    }

    /// Runs the witness-assisted pairing and asserts the result is one. With
    /// a correctly derived `(c, wi)` this accepts exactly when the real
    /// pairing product is the identity; a wrong witness clears `satisfied`.
    pub fn check_pairing_c_wi(
        &mut self,
        c: &Fq12,
        wi: &Fq12,
        terms: &Vec<(G1Affine, G2Affine)>,
    ) -> (r: Result<(), PairingError>)
        requires
            c.wf(),
            wi.wf(),
            pairs_wf(terms@),
        ensures
            final(self).family == old(self).family,
            match r {
                Ok(()) => old(self).family == CurveFamily::Bn254 && pairs_ok(pairs_v(terms@))
                    && fq12_inv_ok(c@) && final(self).satisfied == (old(self).satisfied
                    && pairing_c_wi_v(c@, wi@, pairs_v(terms@)) == fq12_one_v()),
                Err(e) => *final(self) == *old(self) && ((old(self).family
                    != CurveFamily::Bn254 && e == PairingError::NotImplemented) || (old(
                    self,
                ).family == CurveFamily::Bn254 && e == PairingError::Synthesis && !(pairs_ok(
                    pairs_v(terms@),
                ) && fq12_inv_ok(c@)))),
            },
    {
        let res = match self.pairing_c_wi(c, wi, terms) {
            Ok(v) => v,
            Err(e) => {
                return Err(e);
            },
        };
        let one = fq12_one();
        let eq = res == one;
        proof {
            if res@ == fq12_one_v() {
                lemma_fq12_view_injective(res, one);
            }
        }
        self.satisfied = self.satisfied && eq;
        Ok(())
    }
}

} // verus!
