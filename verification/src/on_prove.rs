//! The affine-coordinate sibling of the witness-assisted check: the same
//! digit schedule and `(c, wi)` folding, operating on prepared affine line
//! coefficients. Each step stores the line slope and intercept `(lam, mu)`;
//! its evaluation at a G1 point is the sparse element
//! `y_p - lam * x_p * w + mu * w^3`.

use vstd::prelude::*;
use crate::fq2::{Fq2, Fq2V, fq2_neg, fq2_neg_v, fq2_scale, fq2_scale_v};
use crate::fq12::{Fq12, Fq12V, fq12_frob1, fq12_frob1_v, fq12_frob2, fq12_frob2_v, fq12_frob3,
    fq12_frob3_v, fq12_inv, fq12_inv_ok, fq12_inv_v, fq12_mul, fq12_mul_v, fq12_mul034,
    fq12_mul034_v, fq12_one, fq12_one_v, fq12_square, fq12_square_v};
use crate::gadget::lemma_fq12_view_injective;
use crate::pairing::{CurveFamily, PairingContext, PairingError, lemma_sched_len_bounds,
    lemma_sched_len_mono, naf_v, prepared_len, sched_len};
use crate::points::{G1Affine, G1V};

verus! {

/// Prepared G2 data for the affine-coordinate loop: one `(lam, mu)` line
/// pair per schedule position, in emission order.
#[derive(Clone, Debug)]
pub struct G2OnProvePrepared {
    pub coeffs: Vec<(Fq2, Fq2)>,
}

pub open spec fn op_coeffs_v(s: Seq<(Fq2, Fq2)>) -> Seq<(Fq2V, Fq2V)> {
    s.map_values(|c: (Fq2, Fq2)| (c.0@, c.1@))
}

impl View for G2OnProvePrepared {
    type V = Seq<(Fq2V, Fq2V)>;

    open spec fn view(&self) -> Seq<(Fq2V, Fq2V)> {
        op_coeffs_v(self.coeffs@)
    }
}

impl G2OnProvePrepared {
    pub open spec fn wf(&self) -> bool {
        forall|i: int|
            0 <= i < self.coeffs@.len() ==> ((#[trigger] self.coeffs@[i]).0.wf()
                && self.coeffs@[i].1.wf())
    }
}

/// The integer model of one affine-loop pairing term.
pub ghost struct OpTermV {
    pub p: G1V,
    pub cs: Seq<(Fq2V, Fq2V)>,
}

pub open spec fn op_terms_v(ts: Seq<(G1Affine, G2OnProvePrepared)>) -> Seq<OpTermV> {
    ts.map_values(|t: (G1Affine, G2OnProvePrepared)| OpTermV { p: t.0@, cs: t.1@ })
}

pub open spec fn op_terms_wf(ts: Seq<(G1Affine, G2OnProvePrepared)>) -> bool {
    forall|k: int|
        0 <= k < ts.len() ==> ((#[trigger] ts[k]).0.wf() && ts[k].1.wf() && ts[k].1@.len()
            == prepared_len())
}

/// One affine line evaluation folded into the accumulator.
#[verifier::opaque]
pub open spec fn ell_op_v(f: Fq12V, c: (Fq2V, Fq2V), p: G1V) -> Fq12V {
    fq12_mul034_v(
        f,
        Fq2V { c0: p.y, c1: 0 },
        fq2_scale_v(fq2_neg_v(c.0), p.x),
        c.1,
    )
}

pub open spec fn ell_op_fold(f: Fq12V, ts: Seq<OpTermV>, idx: int, t: int) -> Fq12V
    decreases t,
{
    if t <= 0 {
        f
    } else {
        ell_op_v(ell_op_fold(f, ts, idx, t - 1), ts[t - 1].cs[idx], ts[t - 1].p)
    }
}

/// The affine witness-assisted accumulator over the digit schedule, with
/// the same `c` injection positions as the projective loop.
pub open spec fn mml_op_rec(
    f: Fq12V,
    cinv: Fq12V,
    c: Fq12V,
    ts: Seq<OpTermV>,
    i: int,
    idx: int,
) -> Fq12V
    decreases i,
{
    if i < 1 {
        f
    } else {
        let f1 = fq12_square_v(f);
        let f2 = ell_op_fold(f1, ts, idx, ts.len() as int);
        let d = naf_v(i - 1);
        if d == 1 {
            mml_op_rec(
                ell_op_fold(fq12_mul_v(f2, cinv), ts, idx + 1, ts.len() as int),
                cinv,
                c,
                ts,
                i - 1,
                idx + 2,
            )
        } else if d == -1 {
            mml_op_rec(
                ell_op_fold(fq12_mul_v(f2, c), ts, idx + 1, ts.len() as int),
                cinv,
                c,
                ts,
                i - 1,
                idx + 2,
            )
        } else {
            mml_op_rec(f2, cinv, c, ts, i - 1, idx + 1)
        }
    }
}

/// The full affine witness-assisted loop value.
pub open spec fn mml_op_v(c: Fq12V, wi: Fq12V, ts: Seq<OpTermV>) -> Fq12V {
    let cinv = fq12_inv_v(c);
    let fl = mml_op_rec(cinv, cinv, c, ts, 64, 0);
    let f1 = ell_op_fold(fl, ts, sched_len(64), ts.len() as int);
    let f2 = ell_op_fold(f1, ts, sched_len(64) + 1, ts.len() as int);
    let f3 = fq12_mul_v(
        fq12_mul_v(fq12_mul_v(f2, fq12_frob1_v(cinv)), fq12_frob2_v(c)),
        fq12_frob3_v(cinv),
    );
    fq12_mul_v(f3, wi)
}

/// Evaluates the affine line of every term at position `idx` and folds the
/// evaluations into the accumulator, in term order.
fn ell_row_op(terms: &Vec<(G1Affine, G2OnProvePrepared)>, f: &Fq12, idx: usize) -> (r: Fq12)
    requires
        op_terms_wf(terms@),
        f.wf(),
        idx < prepared_len(),
    ensures
        r.wf(),
        r@ == ell_op_fold(f@, op_terms_v(terms@), idx as int, terms@.len() as int),
{
    let mut g = *f;
    let n = terms.len();
    let mut t: usize = 0;
    while t < n
        invariant
            op_terms_wf(terms@),
            idx < prepared_len(),
            g.wf(),
            t <= n,
            n == terms@.len(),
            g@ == ell_op_fold(f@, op_terms_v(terms@), idx as int, t as int),
        decreases n - t,
    {
        let c = &terms[t].1.coeffs[idx];
        let p = &terms[t].0;
        let c0 = Fq2 { c0: p.y, c1: crate::fq::fq_zero() };
        let c3 = fq2_scale(&fq2_neg(&c.0), &p.x);
        g = fq12_mul034(&g, &c0, &c3, &c.1);
        proof {
            reveal(ell_op_v);
            assert(op_terms_v(terms@)[t as int] == (OpTermV { p: terms@[t as int].0@, cs: terms@[
                t as int].1@ }));
            assert(terms@[t as int].1@[idx as int] == (terms@[t as int].1.coeffs@[idx as int].0@,
                terms@[t as int].1.coeffs@[idx as int].1@));
        }
        t = t + 1;
    }
    g
}

impl PairingContext {
    /// The affine-coordinate witness-assisted loop: the same schedule and
    /// `(c, wi)` folding as the projective variant, consuming prepared
    /// affine line pairs.
    pub fn multi_miller_loop_on_prove_pairing(
        &mut self,
        c: &Fq12,
        wi: &Fq12,
        terms: &Vec<(G1Affine, G2OnProvePrepared)>,
    ) -> (r: Result<Fq12, PairingError>)
        requires
            c.wf(),
            wi.wf(),
            op_terms_wf(terms@),
        ensures
            *final(self) == *old(self),
            match r {
                Ok(v) => old(self).family == CurveFamily::Bn254 && fq12_inv_ok(c@) && v.wf()
                    && v@ == mml_op_v(c@, wi@, op_terms_v(terms@)),
                Err(e) => (old(self).family != CurveFamily::Bn254 && e
                    == PairingError::NotImplemented) || (old(self).family
                    == CurveFamily::Bn254 && !fq12_inv_ok(c@) && e == PairingError::Synthesis),
            },
    {
        if !matches!(self.family, CurveFamily::Bn254) {
            return Err(PairingError::NotImplemented);
        }
        let cinv = match fq12_inv(c) {
            Some(v) => v,
            None => {
                return Err(PairingError::Synthesis);
            },
        };
        let ghost tsv = op_terms_v(terms@);
        let mut f = cinv;
        let mut idx: usize = 0;
        let mut i: usize = 64;
        proof {
            lemma_sched_len_bounds(64);
        }
        while i >= 1
            invariant
                op_terms_wf(terms@),
                tsv == op_terms_v(terms@),
                c.wf(),
                cinv.wf(),
                f.wf(),
                i <= 64,
                sched_len(64) <= 128,
                idx as int == sched_len(64) - sched_len(i as int),
                mml_op_rec(f@, cinv@, c@, tsv, i as int, idx as int) == mml_op_rec(
                    cinv@,
                    cinv@,
                    c@,
                    tsv,
                    64,
                    0,
                ),
            decreases i,
        {
            proof {
                lemma_sched_len_bounds(i as int);
                lemma_sched_len_mono(i as int, 64);
                lemma_sched_len_mono(i as int - 1, i as int);
                lemma_sched_len_bounds(i as int - 1);
            }
            f = fq12_square(&f);
            f = ell_row_op(terms, &f, idx);
            let d = crate::pairing::naf_digit(i - 1);
            if d == 1 {
                f = fq12_mul(&f, &cinv);
                f = ell_row_op(terms, &f, idx + 1);
                idx = idx + 2;
            } else if d == -1 {
                f = fq12_mul(&f, c);
                f = ell_row_op(terms, &f, idx + 1);
                idx = idx + 2;
            } else {
                idx = idx + 1;
            }
            i = i - 1;
        }
        proof {
            assert(mml_op_rec(f@, cinv@, c@, tsv, 0, idx as int) == f@);
        }
        f = ell_row_op(terms, &f, idx);
        f = ell_row_op(terms, &f, idx + 1);
        f = fq12_mul(
            &fq12_mul(&fq12_mul(&f, &fq12_frob1(&cinv)), &fq12_frob2(c)),
            &fq12_frob3(&cinv),
        );
        Ok(fq12_mul(&f, wi))
    }

    /// Runs the affine witness-assisted loop and asserts the result is one;
    /// a wrong witness clears `satisfied`.
    pub fn check_pairing_on_prove_pairing(
        &mut self,
        c: &Fq12,
        wi: &Fq12,
        terms: &Vec<(G1Affine, G2OnProvePrepared)>,
    ) -> (r: Result<(), PairingError>)
        requires
            c.wf(),
            wi.wf(),
            op_terms_wf(terms@),
        ensures
            final(self).family == old(self).family,
            match r {
                Ok(()) => old(self).family == CurveFamily::Bn254 && fq12_inv_ok(c@)
                    && final(self).satisfied == (old(self).satisfied && mml_op_v(
                    c@,
                    wi@,
                    op_terms_v(terms@),
                ) == fq12_one_v()),
                Err(e) => *final(self) == *old(self) && ((old(self).family
                    != CurveFamily::Bn254 && e == PairingError::NotImplemented)
                    || (old(self).family == CurveFamily::Bn254 && !fq12_inv_ok(c@) && e
                    == PairingError::Synthesis)),
            },
    {
        let res = match self.multi_miller_loop_on_prove_pairing(c, wi, terms) {
            Ok(v) => v,
            Err(e) => {
                return Err(e);
            },
        };
        let one = fq12_one();
        let eq = res == one;
        proof {
            if res@ == fq12_one_v() {
                lemma_fq12_view_injective(res, one);
            }
        }
        self.satisfied = self.satisfied && eq;
        Ok(())
    }
}

} // verus!
