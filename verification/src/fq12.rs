//! The tower extensions Fq6 = Fq2[v]/(v^3 - xi) and Fq12 = Fq6[w]/(w^2 - v),
//! with xi = 9 + u, verified over the quadratic extension.
//!
//! Multiplication mirrors the Karatsuba shapes of the consumed field-tower
//! collaborator; the sparse `mul_by_034` product is the line-evaluation
//! optimization used by the Miller loop.

use vstd::prelude::*;
use crate::fq::{Fq, limbs_v};
use crate::fq2::{Fq2, Fq2V, fq2_add, fq2_add_v, fq2_conj, fq2_conj_v, fq2_inv, fq2_inv_ok,
    fq2_inv_v, fq2_mul, fq2_mul_by_xi, fq2_mul_by_xi_v, fq2_mul_v, fq2_neg, fq2_neg_v, fq2_one,
    fq2_one_v, fq2_scale, fq2_scale_v, fq2_square, fq2_square_v, fq2_sub, fq2_sub_v, fq2_zero,
    fq2_zero_v};

verus! {

/// The integer model of a degree-6 element: `c0 + c1 * v + c2 * v^2`.
pub ghost struct Fq6V {
    pub c0: Fq2V,
    pub c1: Fq2V,
    pub c2: Fq2V,
}

/// The integer model of a degree-12 element: `c0 + c1 * w`.
pub ghost struct Fq12V {
    pub c0: Fq6V,
    pub c1: Fq6V,
}

#[derive(Clone, Copy, PartialEq, Eq, Structural, Debug)]
pub struct Fq6 {
    pub c0: Fq2,
    pub c1: Fq2,
    pub c2: Fq2,
}

#[derive(Clone, Copy, PartialEq, Eq, Structural, Debug)]
pub struct Fq12 {
    pub c0: Fq6,
    pub c1: Fq6,
}

impl View for Fq6 {
    type V = Fq6V;

    open spec fn view(&self) -> Fq6V {
        Fq6V { c0: self.c0@, c1: self.c1@, c2: self.c2@ }
    }
}

impl View for Fq12 {
    type V = Fq12V;

    open spec fn view(&self) -> Fq12V {
        Fq12V { c0: self.c0@, c1: self.c1@ }
    }
}

impl Fq6 {
    pub open spec fn wf(&self) -> bool {
        self.c0.wf() && self.c1.wf() && self.c2.wf()
    }
}

impl Fq12 {
    pub open spec fn wf(&self) -> bool {
        self.c0.wf() && self.c1.wf()
    }
}

pub open spec fn fq6_zero_v() -> Fq6V {
    Fq6V { c0: fq2_zero_v(), c1: fq2_zero_v(), c2: fq2_zero_v() }
}

pub open spec fn fq6_one_v() -> Fq6V {
    Fq6V { c0: fq2_one_v(), c1: fq2_zero_v(), c2: fq2_zero_v() }
}

pub open spec fn fq12_one_v() -> Fq12V {
    Fq12V { c0: fq6_one_v(), c1: fq6_zero_v() }
}

pub open spec fn fq6_add_v(a: Fq6V, b: Fq6V) -> Fq6V {
    Fq6V {
        c0: fq2_add_v(a.c0, b.c0),
        c1: fq2_add_v(a.c1, b.c1),
        c2: fq2_add_v(a.c2, b.c2),
    }
}

pub open spec fn fq6_sub_v(a: Fq6V, b: Fq6V) -> Fq6V {
    Fq6V {
        c0: fq2_sub_v(a.c0, b.c0),
        c1: fq2_sub_v(a.c1, b.c1),
        c2: fq2_sub_v(a.c2, b.c2),
    }
}

pub open spec fn fq6_neg_v(a: Fq6V) -> Fq6V {
    Fq6V { c0: fq2_neg_v(a.c0), c1: fq2_neg_v(a.c1), c2: fq2_neg_v(a.c2) }
}

/// Multiplication by the cubic non-residue `v`: a rotation with an extra
/// factor of xi on the wrapped coefficient.
pub open spec fn fq6_mul_by_nr_v(a: Fq6V) -> Fq6V {
    Fq6V { c0: fq2_mul_by_xi_v(a.c2), c1: a.c0, c2: a.c1 }
}

/// Full degree-6 product in the interpolation shape of the collaborator.
#[verifier::opaque]
pub open spec fn fq6_mul_v(a: Fq6V, b: Fq6V) -> Fq6V {
    let a_a = fq2_mul_v(a.c0, b.c0);
    let b_b = fq2_mul_v(a.c1, b.c1);
    let c_c = fq2_mul_v(a.c2, b.c2);
    let t1 = fq2_add_v(
        a_a,
        fq2_mul_by_xi_v(
            fq2_sub_v(
                fq2_mul_v(fq2_add_v(b.c1, b.c2), fq2_add_v(a.c1, a.c2)),
                fq2_add_v(c_c, b_b),
            ),
        ),
    );
    let t3 = fq2_sub_v(
        fq2_mul_v(fq2_add_v(b.c0, b.c2), fq2_add_v(a.c0, a.c2)),
        fq2_add_v(fq2_sub_v(a_a, b_b), c_c),
    );
    let t2 = fq2_add_v(
        fq2_sub_v(
            fq2_mul_v(fq2_add_v(b.c0, b.c1), fq2_add_v(a.c0, a.c1)),
            fq2_add_v(a_a, b_b),
        ),
        fq2_mul_by_xi_v(c_c),
    );
    Fq6V { c0: t1, c1: t2, c2: t3 }
}

/// Sparse degree-6 product against an element with only the two lowest
/// coefficients set.
#[verifier::opaque]
pub open spec fn fq6_mul_by_01_v(a: Fq6V, x0: Fq2V, x1: Fq2V) -> Fq6V {
    let a_a = fq2_mul_v(a.c0, x0);
    let b_b = fq2_mul_v(a.c1, x1);
    let t1 = fq2_add_v(
        a_a,
        fq2_mul_by_xi_v(fq2_sub_v(fq2_mul_v(x1, fq2_add_v(a.c1, a.c2)), b_b)),
    );
    let t3 = fq2_add_v(fq2_sub_v(fq2_mul_v(x0, fq2_add_v(a.c0, a.c2)), a_a), b_b);
    let t2 = fq2_sub_v(
        fq2_sub_v(fq2_mul_v(fq2_add_v(x0, x1), fq2_add_v(a.c0, a.c1)), a_a),
        b_b,
    );
    Fq6V { c0: t1, c1: t2, c2: t3 }
}

/// Scaling every coefficient by one Fq2 element.
pub open spec fn fq6_scale_v(a: Fq6V, s: Fq2V) -> Fq6V {
    Fq6V { c0: fq2_mul_v(a.c0, s), c1: fq2_mul_v(a.c1, s), c2: fq2_mul_v(a.c2, s) }
}

#[verifier::opaque]
pub open spec fn fq6_inv_aux_c0(a: Fq6V) -> Fq2V {
    fq2_add_v(fq2_mul_v(fq2_mul_by_xi_v(a.c2), fq2_neg_v(a.c1)), fq2_square_v(a.c0))
}

#[verifier::opaque]
pub open spec fn fq6_inv_aux_c1(a: Fq6V) -> Fq2V {
    fq2_sub_v(fq2_mul_by_xi_v(fq2_square_v(a.c2)), fq2_mul_v(a.c0, a.c1))
}

#[verifier::opaque]
pub open spec fn fq6_inv_aux_c2(a: Fq6V) -> Fq2V {
    fq2_sub_v(fq2_square_v(a.c1), fq2_mul_v(a.c0, a.c2))
}

#[verifier::opaque]
pub open spec fn fq6_inv_aux_t(a: Fq6V) -> Fq2V {
    fq2_add_v(
        fq2_mul_by_xi_v(
            fq2_add_v(
                fq2_mul_v(a.c2, fq6_inv_aux_c1(a)),
                fq2_mul_v(a.c1, fq6_inv_aux_c2(a)),
            ),
        ),
        fq2_mul_v(a.c0, fq6_inv_aux_c0(a)),
    )
}

#[verifier::opaque]
pub open spec fn fq6_inv_ok(a: Fq6V) -> bool {
    fq2_inv_ok(fq6_inv_aux_t(a))
}

#[verifier::opaque]
pub open spec fn fq6_inv_v(a: Fq6V) -> Fq6V {
    let t = fq2_inv_v(fq6_inv_aux_t(a));
    Fq6V {
        c0: fq2_mul_v(t, fq6_inv_aux_c0(a)),
        c1: fq2_mul_v(t, fq6_inv_aux_c1(a)),
        c2: fq2_mul_v(t, fq6_inv_aux_c2(a)),
    }
}

#[verifier::opaque]
pub open spec fn fq12_mul_v(a: Fq12V, b: Fq12V) -> Fq12V {
    let v0 = fq6_mul_v(a.c0, b.c0);
    let v1 = fq6_mul_v(a.c1, b.c1);
    Fq12V {
        c0: fq6_add_v(v0, fq6_mul_by_nr_v(v1)),
        c1: fq6_sub_v(
            fq6_mul_v(fq6_add_v(a.c0, a.c1), fq6_add_v(b.c0, b.c1)),
            fq6_add_v(v0, v1),
        ),
    }
}

#[verifier::opaque]
pub open spec fn fq12_square_v(a: Fq12V) -> Fq12V {
    fq12_mul_v(a, a)
}

/// Conjugation over Fq6: negate the coefficient of `w`.
pub open spec fn fq12_conj_v(a: Fq12V) -> Fq12V {
    Fq12V { c0: a.c0, c1: fq6_neg_v(a.c1) }
}

/// Sparse product of `f` with the line element `x0 + x3 * w + x4 * v * w`.
#[verifier::opaque]
pub open spec fn fq12_mul034_v(f: Fq12V, x0: Fq2V, x3: Fq2V, x4: Fq2V) -> Fq12V {
    let t0 = fq6_scale_v(f.c0, x0);
    let t1 = fq6_mul_by_01_v(f.c1, x3, x4);
    Fq12V {
        c0: fq6_add_v(t0, fq6_mul_by_nr_v(t1)),
        c1: fq6_sub_v(
            fq6_sub_v(fq6_mul_by_01_v(fq6_add_v(f.c0, f.c1), fq2_add_v(x0, x3), x4), t0),
            t1,
        ),
    }
}

#[verifier::opaque]
pub open spec fn fq6_frob1_v(a: Fq6V) -> Fq6V {
    Fq6V {
        c0: fq2_conj_v(a.c0),
        c1: fq2_mul_v(fq2_conj_v(a.c1), frob6_c1_1_v()),
        c2: fq2_mul_v(fq2_conj_v(a.c2), frob6_c2_1_v()),
    }
}

#[verifier::opaque]
pub open spec fn fq6_frob2_v(a: Fq6V) -> Fq6V {
    Fq6V {
        c0: a.c0,
        c1: fq2_mul_v(a.c1, frob6_c1_2_v()),
        c2: fq2_mul_v(a.c2, frob6_c2_2_v()),
    }
}

#[verifier::opaque]
pub open spec fn fq6_frob3_v(a: Fq6V) -> Fq6V {
    Fq6V {
        c0: fq2_conj_v(a.c0),
        c1: fq2_mul_v(fq2_conj_v(a.c1), frob6_c1_3_v()),
        c2: fq2_mul_v(fq2_conj_v(a.c2), frob6_c2_3_v()),
    }
}

/// The Frobenius endomorphism `x -> x^q` on Fq12.
#[verifier::opaque]
pub open spec fn fq12_frob1_v(f: Fq12V) -> Fq12V {
    Fq12V {
        c0: fq6_frob1_v(f.c0),
        c1: fq6_scale_v(fq6_frob1_v(f.c1), frob12_c1_1_v()),
    }
}

/// The squared Frobenius `x -> x^(q^2)`.
#[verifier::opaque]
pub open spec fn fq12_frob2_v(f: Fq12V) -> Fq12V {
    Fq12V {
        c0: fq6_frob2_v(f.c0),
        c1: fq6_scale_v(fq6_frob2_v(f.c1), frob12_c1_2_v()),
    }
}

/// The cubed Frobenius `x -> x^(q^3)`.
#[verifier::opaque]
pub open spec fn fq12_frob3_v(f: Fq12V) -> Fq12V {
    Fq12V {
        c0: fq6_frob3_v(f.c0),
        c1: fq6_scale_v(fq6_frob3_v(f.c1), frob12_c1_3_v()),
    }
}

#[verifier::opaque]
pub open spec fn fq12_inv_aux_norm(a: Fq12V) -> Fq6V {
    fq6_sub_v(fq6_mul_v(a.c0, a.c0), fq6_mul_by_nr_v(fq6_mul_v(a.c1, a.c1)))
}

#[verifier::opaque]
pub open spec fn fq12_inv_ok(a: Fq12V) -> bool {
    fq6_inv_ok(fq12_inv_aux_norm(a))
}

#[verifier::opaque]
pub open spec fn fq12_inv_v(a: Fq12V) -> Fq12V {
    let t = fq6_inv_v(fq12_inv_aux_norm(a));
    Fq12V { c0: fq6_mul_v(a.c0, t), c1: fq6_mul_v(a.c1, fq6_neg_v(t)) }
}

pub fn fq6_zero() -> (r: Fq6)
    ensures
        r.wf(),
        r@ == fq6_zero_v(),
{
    Fq6 { c0: fq2_zero(), c1: fq2_zero(), c2: fq2_zero() }
}

pub fn fq6_one() -> (r: Fq6)
    ensures
        r.wf(),
        r@ == fq6_one_v(),
{
    Fq6 { c0: fq2_one(), c1: fq2_zero(), c2: fq2_zero() }
}

pub fn fq12_one() -> (r: Fq12)
    ensures
        r.wf(),
        r@ == fq12_one_v(),
{
    Fq12 { c0: fq6_one(), c1: fq6_zero() }
}

pub fn fq6_add(a: &Fq6, b: &Fq6) -> (r: Fq6)
    requires
        a.wf(),
        b.wf(),
    ensures
        r.wf(),
        r@ == fq6_add_v(a@, b@),
{
    Fq6 { c0: fq2_add(&a.c0, &b.c0), c1: fq2_add(&a.c1, &b.c1), c2: fq2_add(&a.c2, &b.c2) }
}

pub fn fq6_sub(a: &Fq6, b: &Fq6) -> (r: Fq6)
    requires
        a.wf(),
        b.wf(),
    ensures
        r.wf(),
        r@ == fq6_sub_v(a@, b@),
{
    Fq6 { c0: fq2_sub(&a.c0, &b.c0), c1: fq2_sub(&a.c1, &b.c1), c2: fq2_sub(&a.c2, &b.c2) }
}

pub fn fq6_neg(a: &Fq6) -> (r: Fq6)
    requires
        a.wf(),
    ensures
        r.wf(),
        r@ == fq6_neg_v(a@),
{
    Fq6 { c0: fq2_neg(&a.c0), c1: fq2_neg(&a.c1), c2: fq2_neg(&a.c2) }
}

pub fn fq6_mul_by_nr(a: &Fq6) -> (r: Fq6)
    requires
        a.wf(),
    ensures
        r.wf(),
        r@ == fq6_mul_by_nr_v(a@),
{
    Fq6 { c0: fq2_mul_by_xi(&a.c2), c1: a.c0, c2: a.c1 }
}

pub fn fq6_mul(a: &Fq6, b: &Fq6) -> (r: Fq6)
    requires
        a.wf(),
        b.wf(),
    ensures
        r.wf(),
        r@ == fq6_mul_v(a@, b@),
{
    proof {
        reveal(fq6_mul_v);
    }
    let a_a = fq2_mul(&a.c0, &b.c0);
    let b_b = fq2_mul(&a.c1, &b.c1);
    let c_c = fq2_mul(&a.c2, &b.c2);
    let t1 = fq2_add(
        &a_a,
        &fq2_mul_by_xi(
            &fq2_sub(
                &fq2_mul(&fq2_add(&b.c1, &b.c2), &fq2_add(&a.c1, &a.c2)),
                &fq2_add(&c_c, &b_b),
            ),
        ),
    );
    let t3 = fq2_sub(
        &fq2_mul(&fq2_add(&b.c0, &b.c2), &fq2_add(&a.c0, &a.c2)),
        &fq2_add(&fq2_sub(&a_a, &b_b), &c_c),
    );
    let t2 = fq2_add(
        &fq2_sub(
            &fq2_mul(&fq2_add(&b.c0, &b.c1), &fq2_add(&a.c0, &a.c1)),
            &fq2_add(&a_a, &b_b),
        ),
        &fq2_mul_by_xi(&c_c),
    );
    Fq6 { c0: t1, c1: t2, c2: t3 }
}

pub fn fq6_mul_by_01(a: &Fq6, x0: &Fq2, x1: &Fq2) -> (r: Fq6)
    requires
        a.wf(),
        x0.wf(),
        x1.wf(),
    ensures
        r.wf(),
        r@ == fq6_mul_by_01_v(a@, x0@, x1@),
{
    proof {
        reveal(fq6_mul_by_01_v);
    }
    let a_a = fq2_mul(&a.c0, x0);
    let b_b = fq2_mul(&a.c1, x1);
    let t1 = fq2_add(
        &a_a,
        &fq2_mul_by_xi(&fq2_sub(&fq2_mul(x1, &fq2_add(&a.c1, &a.c2)), &b_b)),
    );
    let t3 = fq2_add(&fq2_sub(&fq2_mul(x0, &fq2_add(&a.c0, &a.c2)), &a_a), &b_b);
    let t2 = fq2_sub(
        &fq2_sub(&fq2_mul(&fq2_add(x0, x1), &fq2_add(&a.c0, &a.c1)), &a_a),
        &b_b,
    );
    Fq6 { c0: t1, c1: t2, c2: t3 }
}

pub fn fq6_scale(a: &Fq6, s: &Fq2) -> (r: Fq6)
    requires
        a.wf(),
        s.wf(),
    ensures
        r.wf(),
        r@ == fq6_scale_v(a@, s@),
{
    Fq6 { c0: fq2_mul(&a.c0, s), c1: fq2_mul(&a.c1, s), c2: fq2_mul(&a.c2, s) }
}

pub fn fq6_inv(a: &Fq6) -> (r: Option<Fq6>)
    requires
        a.wf(),
    ensures
        match r {
            Some(v) => fq6_inv_ok(a@) && v.wf() && v@ == fq6_inv_v(a@),
            None => !fq6_inv_ok(a@),
        },
{
    proof {
        reveal(fq6_inv_aux_c0);
        reveal(fq6_inv_aux_c1);
        reveal(fq6_inv_aux_c2);
        reveal(fq6_inv_aux_t);
        reveal(fq6_inv_ok);
        reveal(fq6_inv_v);
    }
    let c0 = fq2_add(&fq2_mul(&fq2_mul_by_xi(&a.c2), &fq2_neg(&a.c1)), &fq2_square(&a.c0));
    let c1 = fq2_sub(&fq2_mul_by_xi(&fq2_square(&a.c2)), &fq2_mul(&a.c0, &a.c1));
    let c2 = fq2_sub(&fq2_square(&a.c1), &fq2_mul(&a.c0, &a.c2));
    let t = fq2_add(
        &fq2_mul_by_xi(&fq2_add(&fq2_mul(&a.c2, &c1), &fq2_mul(&a.c1, &c2))),
        &fq2_mul(&a.c0, &c0),
    );
    match fq2_inv(&t) {
        None => None,
        Some(ti) => Some(
            Fq6 { c0: fq2_mul(&ti, &c0), c1: fq2_mul(&ti, &c1), c2: fq2_mul(&ti, &c2) },
        ),
    }
}

pub fn fq12_mul(a: &Fq12, b: &Fq12) -> (r: Fq12)
    requires
        a.wf(),
        b.wf(),
    ensures
        r.wf(),
        r@ == fq12_mul_v(a@, b@),
{
    proof {
        reveal(fq12_mul_v);
    }
    let v0 = fq6_mul(&a.c0, &b.c0);
    let v1 = fq6_mul(&a.c1, &b.c1);
    Fq12 {
        c0: fq6_add(&v0, &fq6_mul_by_nr(&v1)),
        c1: fq6_sub(
            &fq6_mul(&fq6_add(&a.c0, &a.c1), &fq6_add(&b.c0, &b.c1)),
            &fq6_add(&v0, &v1),
        ),
    }
}

pub fn fq12_square(a: &Fq12) -> (r: Fq12)
    requires
        a.wf(),
    ensures
        r.wf(),
        r@ == fq12_square_v(a@),
{
    proof {
        reveal(fq12_square_v);
    }
    fq12_mul(a, a)
}

pub fn fq12_conj(a: &Fq12) -> (r: Fq12)
    requires
        a.wf(),
    ensures
        r.wf(),
        r@ == fq12_conj_v(a@),
{
    Fq12 { c0: a.c0, c1: fq6_neg(&a.c1) }
}

pub fn fq12_mul034(f: &Fq12, x0: &Fq2, x3: &Fq2, x4: &Fq2) -> (r: Fq12)
    requires
        f.wf(),
        x0.wf(),
        x3.wf(),
        x4.wf(),
    ensures
        r.wf(),
        r@ == fq12_mul034_v(f@, x0@, x3@, x4@),
{
    proof {
        reveal(fq12_mul034_v);
    }
    let t0 = fq6_scale(&f.c0, x0);
    let t1 = fq6_mul_by_01(&f.c1, x3, x4);
    Fq12 {
        c0: fq6_add(&t0, &fq6_mul_by_nr(&t1)),
        c1: fq6_sub(
            &fq6_sub(&fq6_mul_by_01(&fq6_add(&f.c0, &f.c1), &fq2_add(x0, x3), x4), &t0),
            &t1,
        ),
    }
}

pub fn fq12_frob1(f: &Fq12) -> (r: Fq12)
    requires
        f.wf(),
    ensures
        r.wf(),
        r@ == fq12_frob1_v(f@),
{
    proof {
        reveal(fq12_frob1_v);
        reveal(fq6_frob1_v);
    }
    let g1 = frob6_c1_1();
    let g2 = frob6_c2_1();
    let c0 = Fq6 {
        c0: fq2_conj(&f.c0.c0),
        c1: fq2_mul(&fq2_conj(&f.c0.c1), &g1),
        c2: fq2_mul(&fq2_conj(&f.c0.c2), &g2),
    };
    let c1pre = Fq6 {
        c0: fq2_conj(&f.c1.c0),
        c1: fq2_mul(&fq2_conj(&f.c1.c1), &g1),
        c2: fq2_mul(&fq2_conj(&f.c1.c2), &g2),
    };
    Fq12 { c0, c1: fq6_scale(&c1pre, &frob12_c1_1()) }
}

pub fn fq12_frob2(f: &Fq12) -> (r: Fq12)
    requires
        f.wf(),
    ensures
        r.wf(),
        r@ == fq12_frob2_v(f@),
{
    proof {
        reveal(fq12_frob2_v);
        reveal(fq6_frob2_v);
    }
    let g1 = frob6_c1_2();
    let g2 = frob6_c2_2();
    let c0 = Fq6 {
        c0: f.c0.c0,
        c1: fq2_mul(&f.c0.c1, &g1),
        c2: fq2_mul(&f.c0.c2, &g2),
    };
    let c1pre = Fq6 {
        c0: f.c1.c0,
        c1: fq2_mul(&f.c1.c1, &g1),
        c2: fq2_mul(&f.c1.c2, &g2),
    };
    Fq12 { c0, c1: fq6_scale(&c1pre, &frob12_c1_2()) }
}

pub fn fq12_frob3(f: &Fq12) -> (r: Fq12)
    requires
        f.wf(),
    ensures
        r.wf(),
        r@ == fq12_frob3_v(f@),
{
    proof {
        reveal(fq12_frob3_v);
        reveal(fq6_frob3_v);
    }
    let g1 = frob6_c1_3();
    let g2 = frob6_c2_3();
    let c0 = Fq6 {
        c0: fq2_conj(&f.c0.c0),
        c1: fq2_mul(&fq2_conj(&f.c0.c1), &g1),
        c2: fq2_mul(&fq2_conj(&f.c0.c2), &g2),
    };
    let c1pre = Fq6 {
        c0: fq2_conj(&f.c1.c0),
        c1: fq2_mul(&fq2_conj(&f.c1.c1), &g1),
        c2: fq2_mul(&fq2_conj(&f.c1.c2), &g2),
    };
    Fq12 { c0, c1: fq6_scale(&c1pre, &frob12_c1_3()) }
}

pub fn fq12_inv(a: &Fq12) -> (r: Option<Fq12>)
    requires
        a.wf(),
    ensures
        match r {
            Some(v) => fq12_inv_ok(a@) && v.wf() && v@ == fq12_inv_v(a@),
            None => !fq12_inv_ok(a@),
        },
{
    proof {
        reveal(fq12_inv_aux_norm);
        reveal(fq12_inv_ok);
        reveal(fq12_inv_v);
    }
    let n = fq6_sub(&fq6_mul(&a.c0, &a.c0), &fq6_mul_by_nr(&fq6_mul(&a.c1, &a.c1)));
    match fq6_inv(&n) {
        None => None,
        Some(t) => Some(Fq12 { c0: fq6_mul(&a.c0, &t), c1: fq6_mul(&a.c1, &fq6_neg(&t)) }),
    }
}

/// xi^((q - 1) / 3): the Fq6 first-coefficient Frobenius constant.
pub open spec fn frob6_c1_1_v() -> Fq2V {
    Fq2V { c0: limbs_v(0x99e39557176f553d, 0xb78cc310c2c3330c, 0x4c0bec3cf559b143, 0x2fb347984f7911f7), c1: limbs_v(0x1665d51c640fcba2, 0x32ae2a1d0b7c9dce, 0x4ba4cc8bd75a0794, 0x16c9e55061ebae20) }
}

pub fn frob6_c1_1() -> (r: Fq2)
    ensures
        r.wf(),
        r@ == frob6_c1_1_v(),
{
    Fq2 { c0: (Fq { l0: 0x99e39557176f553d, l1: 0xb78cc310c2c3330c, l2: 0x4c0bec3cf559b143, l3: 0x2fb347984f7911f7 }), c1: (Fq { l0: 0x1665d51c640fcba2, l1: 0x32ae2a1d0b7c9dce, l2: 0x4ba4cc8bd75a0794, l3: 0x16c9e55061ebae20 }) }
}

/// xi^((2 q - 2) / 3): the Fq6 second-coefficient Frobenius constant.
pub open spec fn frob6_c2_1_v() -> Fq2V {
    Fq2V { c0: limbs_v(0x848a1f55921ea762, 0xd33365f7be94ec72, 0x80f3c0b75a181e84, 0x5b54f5e64eea801), c1: limbs_v(0xc13b4711cd2b8126, 0x3685d2ea1bdec763, 0x9f3a80b03b0b1c92, 0x2c145edbe7fd8aee) }
}

pub fn frob6_c2_1() -> (r: Fq2)
    ensures
        r.wf(),
        r@ == frob6_c2_1_v(),
{
    Fq2 { c0: (Fq { l0: 0x848a1f55921ea762, l1: 0xd33365f7be94ec72, l2: 0x80f3c0b75a181e84, l3: 0x5b54f5e64eea801 }), c1: (Fq { l0: 0xc13b4711cd2b8126, l1: 0x3685d2ea1bdec763, l2: 0x9f3a80b03b0b1c92, l3: 0x2c145edbe7fd8aee }) }
}

/// xi^((q^2 - 1) / 3), for the squared Frobenius.
pub open spec fn frob6_c1_2_v() -> Fq2V {
    Fq2V { c0: limbs_v(0xe4bd44e5607cfd48, 0xc28f069fbb966e3d, 0x5e6dd9e7e0acccb0, 0x30644e72e131a029), c1: limbs_v(0x0, 0x0, 0x0, 0x0) }
}

pub fn frob6_c1_2() -> (r: Fq2)
    ensures
        r.wf(),
        r@ == frob6_c1_2_v(),
{
    Fq2 { c0: (Fq { l0: 0xe4bd44e5607cfd48, l1: 0xc28f069fbb966e3d, l2: 0x5e6dd9e7e0acccb0, l3: 0x30644e72e131a029 }), c1: (Fq { l0: 0x0, l1: 0x0, l2: 0x0, l3: 0x0 }) }
}

/// xi^((2 q^2 - 2) / 3), for the squared Frobenius.
pub open spec fn frob6_c2_2_v() -> Fq2V {
    Fq2V { c0: limbs_v(0x5763473177fffffe, 0xd4f263f1acdb5c4f, 0x59e26bcea0d48bac, 0x0), c1: limbs_v(0x0, 0x0, 0x0, 0x0) }
}

pub fn frob6_c2_2() -> (r: Fq2)
    ensures
        r.wf(),
        r@ == frob6_c2_2_v(),
{
    Fq2 { c0: (Fq { l0: 0x5763473177fffffe, l1: 0xd4f263f1acdb5c4f, l2: 0x59e26bcea0d48bac, l3: 0x0 }), c1: (Fq { l0: 0x0, l1: 0x0, l2: 0x0, l3: 0x0 }) }
}

/// xi^((q^3 - 1) / 3), for the cubed Frobenius.
pub open spec fn frob6_c1_3_v() -> Fq2V {
    Fq2V { c0: limbs_v(0x7b746ee87bdcfb6d, 0x805ffd3d5d6942d3, 0xbaff1c77959f25ac, 0x856e078b755ef0a), c1: limbs_v(0x380cab2baaa586de, 0xfdf31bf98ff2631, 0xa9f30e6dec26094f, 0x4f1de41b3d1766f) }
}

pub fn frob6_c1_3() -> (r: Fq2)
    ensures
        r.wf(),
        r@ == frob6_c1_3_v(),
{
    Fq2 { c0: (Fq { l0: 0x7b746ee87bdcfb6d, l1: 0x805ffd3d5d6942d3, l2: 0xbaff1c77959f25ac, l3: 0x856e078b755ef0a }), c1: (Fq { l0: 0x380cab2baaa586de, l1: 0xfdf31bf98ff2631, l2: 0xa9f30e6dec26094f, l3: 0x4f1de41b3d1766f }) }
}

/// xi^((2 q^3 - 2) / 3), for the cubed Frobenius.
pub open spec fn frob6_c2_3_v() -> Fq2V {
    Fq2V { c0: limbs_v(0xe1a92bc3ccbf066, 0xe633094575b06bcb, 0x19bee0f7b5b2444e, 0xbc58c6611c08dab), c1: limbs_v(0x5fe3ed9d730c239f, 0xa44a9e08737f96e5, 0xfeb0f6ef0cd21d04, 0x23d5e999e1910a12) }
}

pub fn frob6_c2_3() -> (r: Fq2)
    ensures
        r.wf(),
        r@ == frob6_c2_3_v(),
{
    Fq2 { c0: (Fq { l0: 0xe1a92bc3ccbf066, l1: 0xe633094575b06bcb, l2: 0x19bee0f7b5b2444e, l3: 0xbc58c6611c08dab }), c1: (Fq { l0: 0x5fe3ed9d730c239f, l1: 0xa44a9e08737f96e5, l2: 0xfeb0f6ef0cd21d04, l3: 0x23d5e999e1910a12 }) }
}

/// xi^((q - 1) / 6): the Fq12 Frobenius constant.
pub open spec fn frob12_c1_1_v() -> Fq2V {
    Fq2V { c0: limbs_v(0xd60b35dadcc9e470, 0x5c521e08292f2176, 0xe8b99fdd76e68b60, 0x1284b71c2865a7df), c1: limbs_v(0xca5cf05f80f362ac, 0x747992778eeec7e5, 0xa6327cfe12150b8e, 0x246996f3b4fae7e6) }
}

pub fn frob12_c1_1() -> (r: Fq2)
    ensures
        r.wf(),
        r@ == frob12_c1_1_v(),
{
    Fq2 { c0: (Fq { l0: 0xd60b35dadcc9e470, l1: 0x5c521e08292f2176, l2: 0xe8b99fdd76e68b60, l3: 0x1284b71c2865a7df }), c1: (Fq { l0: 0xca5cf05f80f362ac, l1: 0x747992778eeec7e5, l2: 0xa6327cfe12150b8e, l3: 0x246996f3b4fae7e6 }) }
}

/// xi^((q^2 - 1) / 6), for the squared Frobenius.
pub open spec fn frob12_c1_2_v() -> Fq2V {
    Fq2V { c0: limbs_v(0xe4bd44e5607cfd49, 0xc28f069fbb966e3d, 0x5e6dd9e7e0acccb0, 0x30644e72e131a029), c1: limbs_v(0x0, 0x0, 0x0, 0x0) }
}

pub fn frob12_c1_2() -> (r: Fq2)
    ensures
        r.wf(),
        r@ == frob12_c1_2_v(),
{
    Fq2 { c0: (Fq { l0: 0xe4bd44e5607cfd49, l1: 0xc28f069fbb966e3d, l2: 0x5e6dd9e7e0acccb0, l3: 0x30644e72e131a029 }), c1: (Fq { l0: 0x0, l1: 0x0, l2: 0x0, l3: 0x0 }) }
}

/// xi^((q^3 - 1) / 6), for the cubed Frobenius.
pub open spec fn frob12_c1_3_v() -> Fq2V {
    Fq2V { c0: limbs_v(0xe86f7d391ed4a67f, 0x894cb38dbe55d24a, 0xefe9608cd0acaa90, 0x19dc81cfcc82e4bb), c1: limbs_v(0x7694aa2bf4c0c101, 0x7f03a5e397d439ec, 0x6cbeee33576139d, 0xabf8b60be77d73) }
}

pub fn frob12_c1_3() -> (r: Fq2)
    ensures
        r.wf(),
        r@ == frob12_c1_3_v(),
{
    Fq2 { c0: (Fq { l0: 0xe86f7d391ed4a67f, l1: 0x894cb38dbe55d24a, l2: 0xefe9608cd0acaa90, l3: 0x19dc81cfcc82e4bb }), c1: (Fq { l0: 0x7694aa2bf4c0c101, l1: 0x7f03a5e397d439ec, l2: 0x6cbeee33576139d, l3: 0xabf8b60be77d73 }) }
}

/// xi^((q - 1) / 2), the one-time correction applied to the y coordinate after the Miller loop schedule.
pub open spec fn xi_to_q_minus_1_over_2_v() -> Fq2V {
    Fq2V { c0: limbs_v(0xdc54014671a0135a, 0xdbaae0eda9c95998, 0xdc5ec698b6e2f9b9, 0x63cf305489af5dc), c1: limbs_v(0x82d37f632623b0e3, 0x21807dc98fa25bd2, 0x704b5a7ec796f2b, 0x7c03cbcac41049a) }
}

pub fn xi_to_q_minus_1_over_2() -> (r: Fq2)
    ensures
        r.wf(),
        r@ == xi_to_q_minus_1_over_2_v(),
{
    Fq2 { c0: (Fq { l0: 0xdc54014671a0135a, l1: 0xdbaae0eda9c95998, l2: 0xdc5ec698b6e2f9b9, l3: 0x63cf305489af5dc }), c1: (Fq { l0: 0x82d37f632623b0e3, l1: 0x21807dc98fa25bd2, l2: 0x704b5a7ec796f2b, l3: 0x7c03cbcac41049a }) }
}


} // verus!
