//! The quadratic extension Fq2 = Fq[u]/(u^2 + 1), verified over the base
//! field primitives.

use vstd::prelude::*;
use crate::fq::{Fq, fq_add, fq_add_v, fq_inv, fq_inv_of, fq_mul, fq_mul_v, fq_neg, fq_neg_v,
    fq_one, fq_sub, fq_sub_v, fq_zero};

verus! {

/// The integer model of a quadratic-extension element: `c0 + c1 * u`.
pub ghost struct Fq2V {
    pub c0: int,
    pub c1: int,
}

/// A quadratic-extension element; `c1` is the coefficient of `u`.
#[derive(Clone, Copy, PartialEq, Eq, Structural, Debug)]
pub struct Fq2 {
    pub c0: Fq,
    pub c1: Fq,
}

impl View for Fq2 {
    type V = Fq2V;

    open spec fn view(&self) -> Fq2V {
        Fq2V { c0: self.c0@, c1: self.c1@ }
    }
}

impl Fq2 {
    pub open spec fn wf(&self) -> bool {
        self.c0.wf() && self.c1.wf()
    }
}

pub open spec fn fq2_zero_v() -> Fq2V {
    Fq2V { c0: 0, c1: 0 }
}

pub open spec fn fq2_one_v() -> Fq2V {
    Fq2V { c0: 1, c1: 0 }
}

pub open spec fn fq2_add_v(a: Fq2V, b: Fq2V) -> Fq2V {
    Fq2V { c0: fq_add_v(a.c0, b.c0), c1: fq_add_v(a.c1, b.c1) }
}

pub open spec fn fq2_sub_v(a: Fq2V, b: Fq2V) -> Fq2V {
    Fq2V { c0: fq_sub_v(a.c0, b.c0), c1: fq_sub_v(a.c1, b.c1) }
}

pub open spec fn fq2_double_v(a: Fq2V) -> Fq2V {
    fq2_add_v(a, a)
}

pub open spec fn fq2_neg_v(a: Fq2V) -> Fq2V {
    Fq2V { c0: fq_neg_v(a.c0), c1: fq_neg_v(a.c1) }
}

/// Conjugation: negate the coefficient of `u`.
pub open spec fn fq2_conj_v(a: Fq2V) -> Fq2V {
    Fq2V { c0: a.c0, c1: fq_neg_v(a.c1) }
}

/// Product in Fq2 with `u^2 = -1`, in the Karatsuba shape used throughout.
pub open spec fn fq2_mul_v(a: Fq2V, b: Fq2V) -> Fq2V {
    let v0 = fq_mul_v(a.c0, b.c0);
    let v1 = fq_mul_v(a.c1, b.c1);
    let s = fq_mul_v(fq_add_v(a.c0, a.c1), fq_add_v(b.c0, b.c1));
    Fq2V { c0: fq_sub_v(v0, v1), c1: fq_sub_v(s, fq_add_v(v0, v1)) }
}

pub open spec fn fq2_square_v(a: Fq2V) -> Fq2V {
    fq2_mul_v(a, a)
}

/// Scaling by a base-field element.
pub open spec fn fq2_scale_v(a: Fq2V, s: int) -> Fq2V {
    Fq2V { c0: fq_mul_v(a.c0, s), c1: fq_mul_v(a.c1, s) }
}

/// Multiplication by the sextic non-residue `xi = 9 + u`.
pub open spec fn fq2_mul_by_xi_v(a: Fq2V) -> Fq2V {
    let t = fq2_double_v(fq2_double_v(fq2_double_v(a)));
    Fq2V {
        c0: fq_sub_v(fq_add_v(t.c0, a.c0), a.c1),
        c1: fq_add_v(fq_add_v(t.c1, a.c0), a.c1),
    }
}

/// The norm `c0^2 + c1^2`; zero exactly when the element has no inverse.
pub open spec fn fq2_norm_v(a: Fq2V) -> int {
    fq_add_v(fq_mul_v(a.c0, a.c0), fq_mul_v(a.c1, a.c1))
}

pub open spec fn fq2_inv_ok(a: Fq2V) -> bool {
    fq2_norm_v(a) != 0
}

/// The inverse `conj(a) / norm(a)`, defined when the norm is nonzero.
pub open spec fn fq2_inv_v(a: Fq2V) -> Fq2V {
    let t = fq_inv_of(fq2_norm_v(a));
    Fq2V { c0: fq_mul_v(a.c0, t), c1: fq_mul_v(fq_neg_v(a.c1), t) }
}

pub fn fq2_zero() -> (r: Fq2)
    ensures
        r.wf(),
        r@ == fq2_zero_v(),
{
    Fq2 { c0: fq_zero(), c1: fq_zero() }
}

pub fn fq2_one() -> (r: Fq2)
    ensures
        r.wf(),
        r@ == fq2_one_v(),
{
    Fq2 { c0: fq_one(), c1: fq_zero() }
}

pub fn fq2_add(a: &Fq2, b: &Fq2) -> (r: Fq2)
    requires
        a.wf(),
        b.wf(),
    ensures
        r.wf(),
        r@ == fq2_add_v(a@, b@),
{
    Fq2 { c0: fq_add(&a.c0, &b.c0), c1: fq_add(&a.c1, &b.c1) }
}

pub fn fq2_sub(a: &Fq2, b: &Fq2) -> (r: Fq2)
    requires
        a.wf(),
        b.wf(),
    ensures
        r.wf(),
        r@ == fq2_sub_v(a@, b@),
{
    Fq2 { c0: fq_sub(&a.c0, &b.c0), c1: fq_sub(&a.c1, &b.c1) }
}

pub fn fq2_double(a: &Fq2) -> (r: Fq2)
    requires
        a.wf(),
    ensures
        r.wf(),
        r@ == fq2_double_v(a@),
{
    fq2_add(a, a)
}

pub fn fq2_neg(a: &Fq2) -> (r: Fq2)
    requires
        a.wf(),
    ensures
        r.wf(),
        r@ == fq2_neg_v(a@),
{
    Fq2 { c0: fq_neg(&a.c0), c1: fq_neg(&a.c1) }
}

pub fn fq2_conj(a: &Fq2) -> (r: Fq2)
    requires
        a.wf(),
    ensures
        r.wf(),
        r@ == fq2_conj_v(a@),
{
    Fq2 { c0: a.c0, c1: fq_neg(&a.c1) }
}

pub fn fq2_mul(a: &Fq2, b: &Fq2) -> (r: Fq2)
    requires
        a.wf(),
        b.wf(),
    ensures
        r.wf(),
        r@ == fq2_mul_v(a@, b@),
{
    let v0 = fq_mul(&a.c0, &b.c0);
    let v1 = fq_mul(&a.c1, &b.c1);
    let sa = fq_add(&a.c0, &a.c1);
    let sb = fq_add(&b.c0, &b.c1);
    let s = fq_mul(&sa, &sb);
    Fq2 { c0: fq_sub(&v0, &v1), c1: fq_sub(&s, &fq_add(&v0, &v1)) }
}

pub fn fq2_square(a: &Fq2) -> (r: Fq2)
    requires
        a.wf(),
    ensures
        r.wf(),
        r@ == fq2_square_v(a@),
{
    fq2_mul(a, a)
}

pub fn fq2_scale(a: &Fq2, s: &Fq) -> (r: Fq2)
    requires
        a.wf(),
        s.wf(),
    ensures
        r.wf(),
        r@ == fq2_scale_v(a@, s@),
{
    Fq2 { c0: fq_mul(&a.c0, s), c1: fq_mul(&a.c1, s) }
}

pub fn fq2_mul_by_xi(a: &Fq2) -> (r: Fq2)
    requires
        a.wf(),
    ensures
        r.wf(),
        r@ == fq2_mul_by_xi_v(a@),
{
    let t = fq2_double(&fq2_double(&fq2_double(a)));
    Fq2 {
        c0: fq_sub(&fq_add(&t.c0, &a.c0), &a.c1),
        c1: fq_add(&fq_add(&t.c1, &a.c0), &a.c1),
    }
}

/// Inversion; `None` exactly when the norm is zero, which for this field
/// happens only on the zero element.
pub fn fq2_inv(a: &Fq2) -> (r: Option<Fq2>)
    requires
        a.wf(),
    ensures
        match r {
            Some(v) => fq2_inv_ok(a@) && v.wf() && v@ == fq2_inv_v(a@),
            None => !fq2_inv_ok(a@),
        },
{
    let n = fq_add(&fq_mul(&a.c0, &a.c0), &fq_mul(&a.c1, &a.c1));
    if n == fq_zero() {
        None
    } else {
        let t = fq_inv(&n);
        Some(Fq2 { c0: fq_mul(&a.c0, &t), c1: fq_mul(&fq_neg(&a.c1), &t) })
    }
}

} // verus!
