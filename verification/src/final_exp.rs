//! The final exponentiation: raising a Miller-loop output to the cofactor
//! exponent, split into the Frobenius-based easy part and the addition-chain
//! hard part parameterized by the curve seed.

use vstd::prelude::*;
use crate::fq12::{Fq12, Fq12V, fq12_conj, fq12_conj_v, fq12_frob1, fq12_frob1_v, fq12_frob2,
    fq12_frob2_v, fq12_inv, fq12_inv_ok, fq12_inv_v, fq12_mul, fq12_mul_v, fq12_one, fq12_one_v,
    fq12_square, fq12_square_v};
use crate::pairing::{CurveFamily, PairingContext, PairingError};

verus! {

/// The BN254 curve seed `u`.
pub open spec fn bn_x() -> u64 {
    0x44e992b44a6909f1u64
}

/// The square-and-multiply state after consuming the seed bits from
/// position `i - 1` down to 0.
pub open spec fn exp_rec(f: Fq12V, r: Fq12V, i: int) -> Fq12V
    decreases i,
{
    if i <= 0 {
        r
    } else {
        let r2 = fq12_square_v(r);
        let r3 = if (bn_x() >> ((i - 1) as u64)) & 1 == 1 {
            fq12_mul_v(r2, f)
        } else {
            r2
        };
        exp_rec(f, r3, i - 1)
    }
}

/// Exponentiation by the curve seed.
pub open spec fn exp_by_x_v(f: Fq12V) -> Fq12V {
    exp_rec(f, fq12_one_v(), 64)
}

/// Square-and-multiply over the bits of the curve seed.
pub fn exp_by_x(f: &Fq12) -> (r: Fq12)
    requires
        f.wf(),
    ensures
        r.wf(),
        r@ == exp_by_x_v(f@),
{
    let x: u64 = 0x44e992b44a6909f1;
    let mut res = fq12_one();
    let mut i: usize = 64;
    while i >= 1
        invariant
            f.wf(),
            res.wf(),
            i <= 64,
            x == bn_x(),
            exp_rec(f@, res@, i as int) == exp_by_x_v(f@),
        decreases i,
    {
        res = fq12_square(&res);
        if (x >> ((i - 1) as u64)) & 1 == 1 {
            res = fq12_mul(&res, f);
        }
        i = i - 1;
    }
    res
}

/// Whether the final exponentiation is defined: the input must be
/// invertible, i.e. nonzero.
pub open spec fn final_exp_ok(f: Fq12V) -> bool {
    fq12_inv_ok(f)
}

/// The final exponentiation: the easy part `f -> (conj(f) / f)^(q^2 + 1)`
/// followed by the hard-part addition chain of the curve.
pub open spec fn final_exp_v(f: Fq12V) -> Fq12V {
    let r0 = fq12_mul_v(fq12_conj_v(f), fq12_inv_v(f));
    let r = fq12_mul_v(fq12_frob2_v(r0), r0);
    let fp = fq12_frob1_v(r);
    let fp2 = fq12_frob2_v(r);
    let fp3 = fq12_frob1_v(fp2);
    let fu = exp_by_x_v(r);
    let fu2 = exp_by_x_v(fu);
    let fu3 = exp_by_x_v(fu2);
    let y3 = fq12_conj_v(fq12_frob1_v(fu));
    let fu2p = fq12_frob1_v(fu2);
    let fu3p = fq12_frob1_v(fu3);
    let y2 = fq12_frob2_v(fu2);
    let y0 = fq12_mul_v(fq12_mul_v(fp, fp2), fp3);
    let y1 = fq12_conj_v(r);
    let y5 = fq12_conj_v(fu2);
    let y4 = fq12_conj_v(fq12_mul_v(fu, fu2p));
    let y6 = fq12_conj_v(fq12_mul_v(fu3, fu3p));
    let y6b = fq12_mul_v(fq12_mul_v(fq12_square_v(y6), y4), y5);
    let t1 = fq12_mul_v(fq12_mul_v(y3, y5), y6b);
    let y6c = fq12_mul_v(y6b, y2);
    let t1b = fq12_square_v(fq12_mul_v(fq12_square_v(t1), y6c));
    let t0 = fq12_mul_v(t1b, y1);
    let t1c = fq12_mul_v(t1b, y0);
    fq12_mul_v(fq12_square_v(t0), t1c)
}

impl PairingContext {
    /// Raises the accumulator to the cofactor exponent. It fails only on a
    /// non-invertible input or a mismatched curve family; an invalid
    /// pairing is not detected here but by the identity assertion of the
    /// caller.
    pub fn final_exponentiation(&mut self, f: &Fq12) -> (r: Result<Fq12, PairingError>)
        requires
            f.wf(),
        ensures
            *final(self) == *old(self),
            match r {
                Ok(v) => old(self).family == CurveFamily::Bn254 && final_exp_ok(f@) && v.wf()
                    && v@ == final_exp_v(f@),
                Err(e) => (old(self).family != CurveFamily::Bn254 && e
                    == PairingError::NotImplemented) || (old(self).family
                    == CurveFamily::Bn254 && !final_exp_ok(f@) && e == PairingError::Synthesis),
            },
    {
        if !matches!(self.family, CurveFamily::Bn254) {
            return Err(PairingError::NotImplemented);
        }
        let f2 = match fq12_inv(f) {
            Some(v) => v,
            None => {
                return Err(PairingError::Synthesis);
            },
        };
        let r0 = fq12_mul(&fq12_conj(f), &f2);
        let r = fq12_mul(&fq12_frob2(&r0), &r0);
        let fp = fq12_frob1(&r);
        let fp2 = fq12_frob2(&r);
        let fp3 = fq12_frob1(&fp2);
        let fu = exp_by_x(&r);
        let fu2 = exp_by_x(&fu);
        let fu3 = exp_by_x(&fu2);
        let y3 = fq12_conj(&fq12_frob1(&fu));
        let fu2p = fq12_frob1(&fu2);
        let fu3p = fq12_frob1(&fu3);
        let y2 = fq12_frob2(&fu2);
        let y0 = fq12_mul(&fq12_mul(&fp, &fp2), &fp3);
        let y1 = fq12_conj(&r);
        let y5 = fq12_conj(&fu2);
        let y4 = fq12_conj(&fq12_mul(&fu, &fu2p));
        let y6 = fq12_conj(&fq12_mul(&fu3, &fu3p));
        let y6b = fq12_mul(&fq12_mul(&fq12_square(&y6), &y4), &y5);
        let t1 = fq12_mul(&fq12_mul(&y3, &y5), &y6b);
        let y6c = fq12_mul(&y6b, &y2);
        let t1b = fq12_square(&fq12_mul(&fq12_square(&t1), &y6c));
        let t0 = fq12_mul(&t1b, &y1);
        let t1c = fq12_mul(&t1b, &y0);
        Ok(fq12_mul(&fq12_square(&t0), &t1c))
    }
}

} // verus!
