//! The pairing gadget: Miller-loop step engine, loop-schedule replay and the
//! multi-pairing orchestrator.

use vstd::prelude::*;
use crate::fq::Fq;
use crate::fq2::{Fq2, Fq2V, fq2_add, fq2_add_v, fq2_conj, fq2_conj_v, fq2_double, fq2_double_v, fq2_mul,
    fq2_mul_v, fq2_neg, fq2_neg_v, fq2_one, fq2_one_v, fq2_scale, fq2_scale_v, fq2_square, fq2_square_v,
    fq2_sub, fq2_sub_v};
use crate::fq12::{Fq12, Fq12V, fq12_mul034, fq12_mul034_v, fq12_one, fq12_one_v, fq12_square,
    fq12_square_v, frob6_c1_1, frob6_c1_1_v, frob6_c1_2, frob6_c1_2_v, xi_to_q_minus_1_over_2,
    xi_to_q_minus_1_over_2_v};
use crate::points::{CoeffsV, G1Affine, G1V, G2, G2Affine, G2AffV, G2Prepared, G2ProjV,
    LineCoeffs, coeffs_seq_v, g2_lift_v, g2_neg_v, lemma_coeffs_seq_push};

verus! {

/// The one structural failure of the gadget: a constraint or assignment
/// cannot be satisfied (an identity input, a vanishing inverse), or the
/// curve-family adapter was invoked for a curve it was not compiled for.
#[derive(Clone, Copy, PartialEq, Eq, Structural, Debug)]
pub enum PairingError {
    Synthesis,
    NotImplemented,
}

/// The curve family a context was built for. One concrete implementation
/// exists, for the BN254 scalar field; the adapter dispatches on this marker
/// instead of reinterpreting memory across generic instantiations.
#[derive(Clone, Copy, PartialEq, Eq, Structural, Debug)]
pub enum CurveFamily {
    Bn254,
    Other,
}

/// The synthesis context of the gadget: the curve-family marker used by the
/// adapter, and the conjunction of every identity assertion emitted so far.
/// A pairing check whose product is not one leaves `satisfied` false; the
/// synthesis itself still completes, mirroring a proof that verification
/// would later reject.
#[derive(Clone, Copy, PartialEq, Eq, Structural, Debug)]
pub struct PairingContext {
    pub family: CurveFamily,
    pub satisfied: bool,
}

impl PairingContext {
    /// A fresh context for the given curve family, with no assertion
    /// violated yet.
    pub fn new(family: CurveFamily) -> (r: PairingContext)
        ensures
            r.family == family,
            r.satisfied,
    {
        PairingContext { family, satisfied: true }
    }
}

/// The signed digits of `6 u + 2` for the BN254 seed `u`, least significant
/// first: the Ate loop schedule replayed by `prepare_g2`.
pub open spec fn naf_v(i: int) -> int {
    if i == 3 || i == 5 || i == 10 || i == 14 || i == 17 || i == 18 || i == 23 || i == 30
        || i == 31 || i == 32 || i == 38 || i == 47 || i == 48 || i == 55 || i == 56 || i == 61
        || i == 63 || i == 64 {
        1
    } else if i == 7 || i == 11 || i == 20 || i == 25 || i == 35 || i == 44 || i == 51
        || i == 58 {
        -1
    } else {
        0
    }
}

pub fn naf_digit(i: usize) -> (d: i32)
    ensures
        d as int == naf_v(i as int),
{
    if i == 3 || i == 5 || i == 10 || i == 14 || i == 17 || i == 18 || i == 23 || i == 30
        || i == 31 || i == 32 || i == 38 || i == 47 || i == 48 || i == 55 || i == 56 || i == 61
        || i == 63 || i == 64 {
        1
    } else if i == 7 || i == 11 || i == 20 || i == 25 || i == 35 || i == 44 || i == 51
        || i == 58 {
        -1
    } else {
        0
    }
}

/// Projective doubling with tangent-line extraction, in the exact operation
/// order of the step engine.
#[verifier::opaque]
pub open spec fn doubling_step_v(pt: G2ProjV) -> (G2ProjV, CoeffsV) {
    let x2 = fq2_square_v(pt.x);
    let y2 = fq2_square_v(pt.y);
    let d2y2 = fq2_double_v(y2);
    let d4y2 = fq2_double_v(d2y2);
    let d4y4 = fq2_square_v(d2y2);
    let d8y4 = fq2_double_v(d4y4);
    let z2 = fq2_square_v(pt.z);
    let d4xy2 = fq2_double_v(fq2_double_v(fq2_mul_v(y2, pt.x)));
    let t3x2 = fq2_add_v(fq2_double_v(x2), x2);
    let t6x2 = fq2_double_v(t3x2);
    let t9x4 = fq2_square_v(t3x2);
    let rx = fq2_sub_v(fq2_sub_v(t9x4, d4xy2), d4xy2);
    let ry = fq2_sub_v(fq2_mul_v(fq2_sub_v(d4xy2, rx), t3x2), d8y4);
    let rz = fq2_double_v(fq2_mul_v(pt.y, pt.z));
    let c0 = fq2_double_v(fq2_mul_v(z2, rz));
    let c1 = fq2_neg_v(fq2_mul_v(z2, t6x2));
    let c2 = fq2_sub_v(fq2_mul_v(t6x2, pt.x), d4y2);
    (G2ProjV { x: rx, y: ry, z: rz }, CoeffsV { c0, c1, c2 })
}

/// Mixed addition of a projective and an affine twist point with secant-line
/// extraction.
#[verifier::opaque]
pub open spec fn addition_step_v(pt: G2ProjV, pq: G2AffV) -> (G2ProjV, CoeffsV) {
    let zt2 = fq2_square_v(pt.z);
    let yqzt3_yt = fq2_sub_v(fq2_mul_v(fq2_mul_v(pq.y, pt.z), zt2), pt.y);
    let theta = fq2_double_v(yqzt3_yt);
    let xqzt2_xt = fq2_sub_v(fq2_mul_v(pq.x, zt2), pt.x);
    let lam = fq2_double_v(xqzt2_xt);
    let lam2 = fq2_square_v(lam);
    let rx = fq2_sub_v(
        fq2_sub_v(fq2_square_v(theta), fq2_mul_v(lam2, xqzt2_xt)),
        fq2_mul_v(fq2_double_v(lam2), pt.x),
    );
    let ry = fq2_sub_v(
        fq2_mul_v(theta, fq2_sub_v(fq2_mul_v(lam2, pt.x), rx)),
        fq2_mul_v(fq2_mul_v(lam, lam2), pt.y),
    );
    let rz = fq2_mul_v(pt.z, lam);
    let c0 = fq2_double_v(rz);
    let c1 = fq2_neg_v(fq2_double_v(theta));
    let c2 = fq2_sub_v(
        fq2_mul_v(fq2_double_v(theta), pq.x),
        fq2_double_v(fq2_mul_v(pq.y, rz)),
    );
    (G2ProjV { x: rx, y: ry, z: rz }, CoeffsV { c0, c1, c2 })
}

/// One doubling of the working twist point, returning the doubled point and
/// the three tangent-line coefficients.
pub fn doubling_step(pt: &G2) -> (r: (G2, LineCoeffs))
    requires
        pt.wf(),
    ensures
        r.0.wf(),
        r.1.wf(),
        (r.0@, r.1@) == doubling_step_v(pt@),
{
    proof {
        reveal(doubling_step_v);
    }
    let x2 = fq2_square(&pt.x);
    let y2 = fq2_square(&pt.y);
    let d2y2 = fq2_double(&y2);
    let d4y2 = fq2_double(&d2y2);
    let d4y4 = fq2_square(&d2y2);
    let d8y4 = fq2_double(&d4y4);
    let z2 = fq2_square(&pt.z);
    let d4xy2 = fq2_double(&fq2_double(&fq2_mul(&y2, &pt.x)));
    let t3x2 = fq2_add(&fq2_double(&x2), &x2);
    let t6x2 = fq2_double(&t3x2);
    let t9x4 = fq2_square(&t3x2);
    let rx = fq2_sub(&fq2_sub(&t9x4, &d4xy2), &d4xy2);
    let ry = fq2_sub(&fq2_mul(&fq2_sub(&d4xy2, &rx), &t3x2), &d8y4);
    let rz = fq2_double(&fq2_mul(&pt.y, &pt.z));
    let c0 = fq2_double(&fq2_mul(&z2, &rz));
    let c1 = fq2_neg(&fq2_mul(&z2, &t6x2));
    let c2 = fq2_sub(&fq2_mul(&t6x2, &pt.x), &d4y2);
    (G2 { x: rx, y: ry, z: rz }, LineCoeffs { c0, c1, c2 })
}

/// One mixed addition of the working point and an affine partner, returning
/// the sum and the three secant-line coefficients.
pub fn addition_step(pt: &G2, pq: &G2Affine) -> (r: (G2, LineCoeffs))
    requires
        pt.wf(),
        pq.wf(),
    ensures
        r.0.wf(),
        r.1.wf(),
        (r.0@, r.1@) == addition_step_v(pt@, pq@),
{
    proof {
        reveal(addition_step_v);
    }
    let zt2 = fq2_square(&pt.z);
    let yqzt3_yt = fq2_sub(&fq2_mul(&fq2_mul(&pq.y, &pt.z), &zt2), &pt.y);
    let theta = fq2_double(&yqzt3_yt);
    let xqzt2_xt = fq2_sub(&fq2_mul(&pq.x, &zt2), &pt.x);
    let lam = fq2_double(&xqzt2_xt);
    let lam2 = fq2_square(&lam);
    let rx = fq2_sub(
        &fq2_sub(&fq2_square(&theta), &fq2_mul(&lam2, &xqzt2_xt)),
        &fq2_mul(&fq2_double(&lam2), &pt.x),
    );
    let ry = fq2_sub(
        &fq2_mul(&theta, &fq2_sub(&fq2_mul(&lam2, &pt.x), &rx)),
        &fq2_mul(&fq2_mul(&lam, &lam2), &pt.y),
    );
    let rz = fq2_mul(&pt.z, &lam);
    let c0 = fq2_double(&rz);
    let c1 = fq2_neg(&fq2_double(&theta));
    let c2 = fq2_sub(
        &fq2_mul(&fq2_double(&theta), &pq.x),
        &fq2_double(&fq2_mul(&pq.y, &rz)),
    );
    (G2 { x: rx, y: ry, z: rz }, LineCoeffs { c0, c1, c2 })
}

/// Lifts an affine twist point to projective coordinates. The identity is
/// not supported: it is rejected with a synthesis failure, never silently
/// converted.
pub fn g2affine_to_g2(g2: &G2Affine) -> (r: Result<G2, PairingError>)
    requires
        g2.wf(),
    ensures
        match r {
            Ok(v) => !g2.z && v.wf() && v@ == g2_lift_v(g2@),
            Err(e) => g2.z && e == PairingError::Synthesis,
        },
{
    if g2.z {
        Err(PairingError::Synthesis)
    } else {
        Ok(G2 { x: g2.x, y: g2.y, z: fq2_one() })
    }
}

/// Negates an affine twist point: only the second coordinate changes; the
/// identity flag is untouched.
pub fn g2_neg(g2: &G2Affine) -> (r: G2Affine)
    requires
        g2.wf(),
    ensures
        r.wf(),
        r@ == g2_neg_v(g2@),
{
    G2Affine { x: g2.x, y: fq2_neg(&g2.y), z: g2.z }
}

/// The point and the remaining coefficient sequence produced by replaying
/// the loop schedule from digit position `i` down to 1.
pub open spec fn prepare_rec(r: G2ProjV, q: G2AffV, nq: G2AffV, i: int) -> (G2ProjV, Seq<CoeffsV>)
    decreases i,
{
    if i < 1 {
        (r, Seq::empty())
    } else {
        let (r1, cd) = doubling_step_v(r);
        let d = naf_v(i - 1);
        if d == 1 {
            let (r2, ca) = addition_step_v(r1, q);
            let (rf, rest) = prepare_rec(r2, q, nq, i - 1);
            (rf, seq![cd, ca] + rest)
        } else if d == -1 {
            let (r2, ca) = addition_step_v(r1, nq);
            let (rf, rest) = prepare_rec(r2, q, nq, i - 1);
            (rf, seq![cd, ca] + rest)
        } else {
            let (rf, rest) = prepare_rec(r1, q, nq, i - 1);
            (rf, seq![cd] + rest)
        }
    }
}

/// The number of coefficient triples produced by the schedule from digit
/// position `i` down to 1.
pub open spec fn sched_len(i: int) -> int
    decreases i,
{
    if i < 1 {
        0
    } else {
        1 + (if naf_v(i - 1) == 0 { 0int } else { 1int }) + sched_len(i - 1)
    }
}

/// The length of one prepared coefficient sequence: the loop schedule plus
/// the two Frobenius correction steps.
pub open spec fn prepared_len() -> int {
    sched_len(64) + 2
}

pub proof fn lemma_sched_len_bounds(i: int)
    requires
        0 <= i,
    ensures
        i <= sched_len(i) <= 2 * i,
    decreases i,
{
    if i >= 1 {
        lemma_sched_len_bounds(i - 1);
    }
}

pub proof fn lemma_prepare_rec_len(r: G2ProjV, q: G2AffV, nq: G2AffV, i: int)
    requires
        0 <= i,
    ensures
        prepare_rec(r, q, nq, i).1.len() == sched_len(i),
    decreases i,
{
    if i >= 1 {
        let (r1, cd) = doubling_step_v(r);
        let d = naf_v(i - 1);
        if d == 1 {
            let (r2, ca) = addition_step_v(r1, q);
            lemma_prepare_rec_len(r2, q, nq, i - 1);
        } else if d == -1 {
            let (r2, ca) = addition_step_v(r1, nq);
            lemma_prepare_rec_len(r2, q, nq, i - 1);
        } else {
            lemma_prepare_rec_len(r1, q, nq, i - 1);
        }
    }
}

/// The twist point `q` carried through the Frobenius endomorphism, as used
/// by the one-time correction after the loop schedule.
pub open spec fn g2_frob1_v(q: G2AffV) -> G2AffV {
    G2AffV {
        x: fq2_mul_v(fq2_conj_v(q.x), frob6_c1_1_v()),
        y: fq2_mul_v(fq2_conj_v(q.y), xi_to_q_minus_1_over_2_v()),
        z: q.z,
    }
}

/// The negated squared-Frobenius image of `q`, the second correction point.
pub open spec fn g2_neg_frob2_v(q: G2AffV) -> G2AffV {
    G2AffV { x: fq2_mul_v(q.x, frob6_c1_2_v()), y: q.y, z: q.z }
}

/// The full prepared coefficient sequence of one twist point: the loop
/// schedule, then the two Frobenius correction additions, in emission order.
pub open spec fn prepare_g2_v(qa: G2AffV) -> Seq<CoeffsV> {
    let (rl, s) = prepare_rec(g2_lift_v(qa), qa, g2_neg_v(qa), 64);
    let (r1, ca1) = addition_step_v(rl, g2_frob1_v(qa));
    let (r2, ca2) = addition_step_v(r1, g2_neg_frob2_v(qa));
    s + seq![ca1, ca2]
}

pub proof fn lemma_prepare_g2_len(qa: G2AffV)
    ensures
        prepare_g2_v(qa).len() == prepared_len(),
{
    lemma_prepare_rec_len(g2_lift_v(qa), qa, g2_neg_v(qa), 64);
}

impl PairingContext {
    /// Replays the fixed Ate loop schedule over the lifted input, one
    /// doubling step per digit with an addition step on every nonzero
    /// digit, then applies the two curve-specific Frobenius corrections.
    /// Deterministic: the output is a function of the input point alone.
    pub fn prepare_g2(&mut self, g2: &G2Affine) -> (r: Result<G2Prepared, PairingError>)
        requires
            g2.wf(),
        ensures
            *final(self) == *old(self),
            match r {
                Ok(p) => old(self).family == CurveFamily::Bn254 && !g2.z && p.wf()
                    && p@ == prepare_g2_v(g2@) && p@.len() == prepared_len(),
                Err(e) => (old(self).family != CurveFamily::Bn254
                    && e == PairingError::NotImplemented) || (old(self).family
                    == CurveFamily::Bn254 && g2.z && e == PairingError::Synthesis),
            },
    {
        if !matches!(self.family, CurveFamily::Bn254) {
            return Err(PairingError::NotImplemented);
        }
        let mut rp = match g2affine_to_g2(g2) {
            Ok(v) => v,
            Err(e) => {
                return Err(e);
            },
        };
        let neg_q = g2_neg(g2);
        let ghost qv = g2@;
        let ghost nqv = g2_neg_v(g2@);
        let ghost total = prepare_rec(g2_lift_v(qv), qv, nqv, 64);
        let mut coeffs: Vec<LineCoeffs> = Vec::new();
        let mut i: usize = 64;
        while i >= 1
            invariant
                g2.wf(),
                neg_q.wf(),
                neg_q@ == nqv,
                qv == g2@,
                rp.wf(),
                i <= 64,
                total == prepare_rec(g2_lift_v(qv), qv, nqv, 64),
                prepare_rec(rp@, qv, nqv, i as int).0 == total.0,
                coeffs_seq_v(coeffs@) + prepare_rec(rp@, qv, nqv, i as int).1 == total.1,
                forall|k: int| 0 <= k < coeffs@.len() ==> (#[trigger] coeffs@[k]).wf(),
            decreases i,
        {
            let ghost coeffs_before = coeffs@;
            let ghost rp_before = rp@;
            let (r1, cd) = doubling_step(&rp);
            rp = r1;
            coeffs.push(cd);
            proof {
                lemma_coeffs_seq_push(coeffs_before, cd);
            }
            let d = naf_digit(i - 1);
            if d == 1 {
                let ghost coeffs_mid = coeffs@;
                let (r2, ca) = addition_step(&rp, g2);
                rp = r2;
                coeffs.push(ca);
                proof {
                    lemma_coeffs_seq_push(coeffs_mid, ca);
                    assert(coeffs_seq_v(coeffs@) + prepare_rec(rp@, qv, nqv, i as int - 1).1
                        =~= coeffs_seq_v(coeffs_before) + prepare_rec(rp_before, qv, nqv,
                        i as int).1);
                }
            } else if d == -1 {
                let ghost coeffs_mid = coeffs@;
                let (r2, ca) = addition_step(&rp, &neg_q);
                rp = r2;
                coeffs.push(ca);
                proof {
                    lemma_coeffs_seq_push(coeffs_mid, ca);
                    assert(coeffs_seq_v(coeffs@) + prepare_rec(rp@, qv, nqv, i as int - 1).1
                        =~= coeffs_seq_v(coeffs_before) + prepare_rec(rp_before, qv, nqv,
                        i as int).1);
                }
            } else {
                proof {
                    assert(coeffs_seq_v(coeffs@) + prepare_rec(rp@, qv, nqv, i as int - 1).1
                        =~= coeffs_seq_v(coeffs_before) + prepare_rec(rp_before, qv, nqv,
                        i as int).1);
                }
            }
            i = i - 1;
        }
        proof {
            assert(coeffs_seq_v(coeffs@) =~= total.1);
        }
        let q1 = G2Affine {
            x: fq2_mul(&fq2_conj(&g2.x), &frob6_c1_1()),
            y: fq2_mul(&fq2_conj(&g2.y), &xi_to_q_minus_1_over_2()),
            z: g2.z,
        };
        let ghost coeffs_a = coeffs@;
        let (r1, ca1) = addition_step(&rp, &q1);
        rp = r1;
        coeffs.push(ca1);
        proof {
            lemma_coeffs_seq_push(coeffs_a, ca1);
        }
        let mq2 = G2Affine { x: fq2_mul(&g2.x, &frob6_c1_2()), y: g2.y, z: g2.z };
        let ghost coeffs_b = coeffs@;
        let (r2, ca2) = addition_step(&rp, &mq2);
        coeffs.push(ca2);
        proof {
            lemma_coeffs_seq_push(coeffs_b, ca2);
            assert(coeffs_seq_v(coeffs@) =~= prepare_g2_v(g2@));
            lemma_prepare_g2_len(g2@);
        }
        Ok(G2Prepared { coeffs })
    }
}

/// The integer model of one pairing term: a G1 point and the prepared
/// coefficient sequence of its G2 partner.
pub ghost struct TermV {
    pub p: G1V,
    pub cs: Seq<CoeffsV>,
}

pub open spec fn terms_v(ts: Seq<(G1Affine, G2Prepared)>) -> Seq<TermV> {
    ts.map_values(|t: (G1Affine, G2Prepared)| TermV { p: t.0@, cs: t.1@ })
}

pub open spec fn terms_wf(ts: Seq<(G1Affine, G2Prepared)>) -> bool {
    forall|k: int|
        0 <= k < ts.len() ==> ((#[trigger] ts[k]).0.wf() && ts[k].1.wf() && ts[k].1@.len()
            == prepared_len())
}

/// One line evaluation folded into the accumulator: the first two
/// coefficients are scaled by the G1 coordinates, then multiplied in
/// sparsely.
#[verifier::opaque]
pub open spec fn ell_v(f: Fq12V, c: CoeffsV, p: G1V) -> Fq12V {
    fq12_mul034_v(f, fq2_scale_v(c.c0, p.y), fq2_scale_v(c.c1, p.x), c.c2)
}

/// The accumulator after folding, at coefficient position `idx`, the line
/// evaluations of the first `t` terms.
pub open spec fn ell_fold(f: Fq12V, ts: Seq<TermV>, idx: int, t: int) -> Fq12V
    decreases t,
{
    if t <= 0 {
        f
    } else {
        ell_v(ell_fold(f, ts, idx, t - 1), ts[t - 1].cs[idx], ts[t - 1].p)
    }
}

/// The accumulator after replaying the loop schedule from digit position `i`
/// down to 1, starting from `f` with the next coefficient row at `idx`.
pub open spec fn mml_rec(f: Fq12V, ts: Seq<TermV>, i: int, idx: int) -> Fq12V
    decreases i,
{
    if i < 1 {
        f
    } else {
        let f1 = if i != 64 {
            fq12_square_v(f)
        } else {
            f
        };
        let f2 = ell_fold(f1, ts, idx, ts.len() as int);
        if naf_v(i - 1) != 0 {
            mml_rec(ell_fold(f2, ts, idx + 1, ts.len() as int), ts, i - 1, idx + 2)
        } else {
            mml_rec(f2, ts, i - 1, idx + 1)
        }
    }
}

/// The full multi-Miller-loop accumulator: the loop schedule, then the two
/// Frobenius correction rows.
pub open spec fn mml_v(ts: Seq<TermV>) -> Fq12V {
    let fl = mml_rec(fq12_one_v(), ts, 64, 0);
    let f1 = ell_fold(fl, ts, sched_len(64), ts.len() as int);
    ell_fold(f1, ts, sched_len(64) + 1, ts.len() as int)
}

pub proof fn lemma_sched_len_mono(i: int, j: int)
    requires
        0 <= i <= j,
    ensures
        sched_len(i) <= sched_len(j),
    decreases j,
{
    if i < j {
        lemma_sched_len_mono(i, j - 1);
    }
}

/// Evaluates the line of every term at coefficient position `idx` and folds
/// the evaluations into the accumulator, in term order.
pub(crate) fn ell_row(terms: &Vec<(G1Affine, G2Prepared)>, f: &Fq12, idx: usize) -> (r: Fq12)
    requires
        terms_wf(terms@),
        f.wf(),
        idx < prepared_len(),
    ensures
        r.wf(),
        r@ == ell_fold(f@, terms_v(terms@), idx as int, terms@.len() as int),
{
    proof {
        reveal(ell_v);
    }
    let mut g = *f;
    let n = terms.len();
    let mut t: usize = 0;
    while t < n
        invariant
            terms_wf(terms@),
            idx < prepared_len(),
            g.wf(),
            t <= n,
            n == terms@.len(),
            g@ == ell_fold(f@, terms_v(terms@), idx as int, t as int),
        decreases n - t,
    {
        let c = &terms[t].1.coeffs[idx];
        let p = &terms[t].0;
        let c0s = fq2_scale(&c.c0, &p.y);
        let c1s = fq2_scale(&c.c1, &p.x);
        g = fq12_mul034(&g, &c0s, &c1s, &c.c2);
        proof {
            reveal(ell_v);
            assert(terms_v(terms@)[t as int] == (TermV { p: terms@[t as int].0@, cs: terms@[
                t as int].1@ }));
            assert(terms@[t as int].1@[idx as int] == terms@[t as int].1.coeffs@[idx as int]@);
        }
        t = t + 1;
    }
    g
}

impl PairingContext {
    /// Accumulates, loop step by loop step, the product over all terms of
    /// the line function evaluated at the corresponding G1 point, using the
    /// sparse line product; the prepared coefficient rows of every term are
    /// consumed in lockstep.
    pub fn multi_miller_loop(&mut self, terms: &Vec<(G1Affine, G2Prepared)>) -> (r: Result<
        Fq12,
        PairingError,
    >)
        requires
            terms_wf(terms@),
        ensures
            *final(self) == *old(self),
            match r {
                Ok(v) => old(self).family == CurveFamily::Bn254 && v.wf() && v@ == mml_v(
                    terms_v(terms@),
                ),
                Err(e) => old(self).family != CurveFamily::Bn254 && e
                    == PairingError::NotImplemented,
            },
    {
        if !matches!(self.family, CurveFamily::Bn254) {
            return Err(PairingError::NotImplemented);
        }
        let ghost tsv = terms_v(terms@);
        let mut f = fq12_one();
        let mut idx: usize = 0;
        let mut i: usize = 64;
        proof {
            lemma_sched_len_bounds(64);
        }
        while i >= 1
            invariant
                terms_wf(terms@),
                tsv == terms_v(terms@),
                f.wf(),
                i <= 64,
                sched_len(64) <= 128,
                idx as int == sched_len(64) - sched_len(i as int),
                mml_rec(f@, tsv, i as int, idx as int) == mml_rec(fq12_one_v(), tsv, 64, 0),
            decreases i,
        {
            proof {
                lemma_sched_len_bounds(i as int);
                lemma_sched_len_mono(i as int, 64);
                lemma_sched_len_mono(i as int - 1, i as int);
                lemma_sched_len_bounds(i as int - 1);
            }
            if i != 64 {
                f = fq12_square(&f);
            }
            f = ell_row(terms, &f, idx);
            let d = naf_digit(i - 1);
            if d != 0 {
                f = ell_row(terms, &f, idx + 1);
                idx = idx + 2;
            } else {
                idx = idx + 1;
            }
            i = i - 1;
        }
        f = ell_row(terms, &f, idx);
        f = ell_row(terms, &f, idx + 1);
        Ok(f)
    }
}

} // verus!
