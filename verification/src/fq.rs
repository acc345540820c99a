//! The BN254 base field: canonical little-endian limb representation and the
//! trusted arithmetic primitives on it.
//!
//! Every other layer of the gadget (quadratic and degree-12 extensions, curve
//! points, the Miller loop) is verified on top of the five primitive
//! operations declared here.

use vstd::prelude::*;

verus! {

pub open spec fn b64() -> int {
    0x10000000000000000int
}

pub open spec fn b128() -> int {
    0x100000000000000000000000000000000int
}

pub open spec fn b192() -> int {
    0x1000000000000000000000000000000000000000000000000int
}

/// The integer denoted by four little-endian 64-bit limbs.
pub open spec fn limbs_v(l0: u64, l1: u64, l2: u64, l3: u64) -> int {
    l0 + l1 * b64() + l2 * b128() + l3 * b192()
}

/// The BN254 base-field modulus.
pub open spec fn q() -> int {
    limbs_v(0x3c208c16d87cfd47, 0x97816a916871ca8d, 0xb85045b68181585d, 0x30644e72e131a029)
}

/// A base-field element: four little-endian 64-bit limbs, kept canonical
/// (strictly below the modulus) by every operation of this module.
#[derive(Clone, Copy, PartialEq, Eq, Structural, Debug)]
pub struct Fq {
    pub l0: u64,
    pub l1: u64,
    pub l2: u64,
    pub l3: u64,
}

impl View for Fq {
    type V = int;

    open spec fn view(&self) -> int {
        limbs_v(self.l0, self.l1, self.l2, self.l3)
    }
}

impl Fq {
    /// Canonical form: the denoted integer is a field residue.
    pub open spec fn wf(&self) -> bool {
        0 <= self@ < q()
    }
}

pub open spec fn fq_add_v(a: int, b: int) -> int {
    (a + b) % q()
}

pub open spec fn fq_sub_v(a: int, b: int) -> int {
    (a - b) % q()
}

pub open spec fn fq_mul_v(a: int, b: int) -> int {
    (a * b) % q()
}

pub open spec fn fq_neg_v(a: int) -> int {
    (q() - a) % q()
}

/// The multiplicative inverse of a nonzero residue, as returned by the base
/// field collaborator; it is characterized by `fq_mul_v(a, fq_inv_of(a)) == 1`.
pub uninterp spec fn fq_inv_of(a: int) -> int;

/// Relies on halo2curves `Fq` addition: field addition modulo q, with
/// `from_raw` reducing the limb input and `to_bytes` returning the canonical
/// little-endian byte form.
#[verifier::external_body]
pub(crate) fn fq_add(a: &Fq, b: &Fq) -> (r: Fq)
    requires
        a.wf(),
        b.wf(),
    ensures
        r.wf(),
        r@ == fq_add_v(a@, b@),
{
    let x = halo2curves::bn256::Fq::from_raw([a.l0, a.l1, a.l2, a.l3]);
    let y = halo2curves::bn256::Fq::from_raw([b.l0, b.l1, b.l2, b.l3]);
    let z = (x + y).to_bytes();
    Fq {
        l0: u64::from_le_bytes(z[0..8].try_into().unwrap()),
        l1: u64::from_le_bytes(z[8..16].try_into().unwrap()),
        l2: u64::from_le_bytes(z[16..24].try_into().unwrap()),
        l3: u64::from_le_bytes(z[24..32].try_into().unwrap()),
    }
}

/// Relies on halo2curves `Fq` subtraction: field subtraction modulo q.
#[verifier::external_body]
pub(crate) fn fq_sub(a: &Fq, b: &Fq) -> (r: Fq)
    requires
        a.wf(),
        b.wf(),
    ensures
        r.wf(),
        r@ == fq_sub_v(a@, b@),
{
    let x = halo2curves::bn256::Fq::from_raw([a.l0, a.l1, a.l2, a.l3]);
    let y = halo2curves::bn256::Fq::from_raw([b.l0, b.l1, b.l2, b.l3]);
    let z = (x - y).to_bytes();
    Fq {
        l0: u64::from_le_bytes(z[0..8].try_into().unwrap()),
        l1: u64::from_le_bytes(z[8..16].try_into().unwrap()),
        l2: u64::from_le_bytes(z[16..24].try_into().unwrap()),
        l3: u64::from_le_bytes(z[24..32].try_into().unwrap()),
    }
}

/// Relies on halo2curves `Fq` multiplication: field multiplication modulo q.
#[verifier::external_body]
pub(crate) fn fq_mul(a: &Fq, b: &Fq) -> (r: Fq)
    requires
        a.wf(),
        b.wf(),
    ensures
        r.wf(),
        r@ == fq_mul_v(a@, b@),
{
    let x = halo2curves::bn256::Fq::from_raw([a.l0, a.l1, a.l2, a.l3]);
    let y = halo2curves::bn256::Fq::from_raw([b.l0, b.l1, b.l2, b.l3]);
    let z = (x * y).to_bytes();
    Fq {
        l0: u64::from_le_bytes(z[0..8].try_into().unwrap()),
        l1: u64::from_le_bytes(z[8..16].try_into().unwrap()),
        l2: u64::from_le_bytes(z[16..24].try_into().unwrap()),
        l3: u64::from_le_bytes(z[24..32].try_into().unwrap()),
    }
}

/// Relies on halo2curves `Fq` negation: the additive inverse modulo q.
#[verifier::external_body]
pub(crate) fn fq_neg(a: &Fq) -> (r: Fq)
    requires
        a.wf(),
    ensures
        r.wf(),
        r@ == fq_neg_v(a@),
{
    let x = halo2curves::bn256::Fq::from_raw([a.l0, a.l1, a.l2, a.l3]);
    let z = (-x).to_bytes();
    Fq {
        l0: u64::from_le_bytes(z[0..8].try_into().unwrap()),
        l1: u64::from_le_bytes(z[8..16].try_into().unwrap()),
        l2: u64::from_le_bytes(z[16..24].try_into().unwrap()),
        l3: u64::from_le_bytes(z[24..32].try_into().unwrap()),
    }
}

/// Relies on `ff::Field::invert` for halo2curves `Fq`: the multiplicative
/// inverse, which exists for every nonzero field element.
#[verifier::external_body]
pub(crate) fn fq_inv(a: &Fq) -> (r: Fq)
    requires
        a.wf(),
        a@ != 0,
    ensures
        r.wf(),
        r@ == fq_inv_of(a@),
        fq_mul_v(a@, r@) == 1,
{
    let x = halo2curves::bn256::Fq::from_raw([a.l0, a.l1, a.l2, a.l3]);
    let i = halo2curves::ff::Field::invert(&x);
    let z = Option::<halo2curves::bn256::Fq>::from(i).unwrap().to_bytes();
    Fq {
        l0: u64::from_le_bytes(z[0..8].try_into().unwrap()),
        l1: u64::from_le_bytes(z[8..16].try_into().unwrap()),
        l2: u64::from_le_bytes(z[16..24].try_into().unwrap()),
        l3: u64::from_le_bytes(z[24..32].try_into().unwrap()),
    }
}

pub fn fq_zero() -> (r: Fq)
    ensures
        r.wf(),
        r@ == 0,
{
    Fq { l0: 0, l1: 0, l2: 0, l3: 0 }
}

pub fn fq_one() -> (r: Fq)
    ensures
        r.wf(),
        r@ == 1,
{
    Fq { l0: 1, l1: 0, l2: 0, l3: 0 }
}

/// Lexicographic limb comparison agrees with the order of the denoted
/// integers.
proof fn lemma_lex_lt(a0: u64, a1: u64, a2: u64, a3: u64, b0: u64, b1: u64, b2: u64, b3: u64)
    requires
        a3 < b3 || (a3 == b3 && (a2 < b2 || (a2 == b2 && (a1 < b1 || (a1 == b1 && a0 < b0))))),
    ensures
        limbs_v(a0, a1, a2, a3) < limbs_v(b0, b1, b2, b3),
{
    assert(a0 + a1 * b64() + a2 * b128() < b192());
    assert(a0 + a1 * b64() < b128());
    assert((a0 as int) < b64());
    if a3 < b3 {
        assert(a3 * b192() + b192() <= b3 * b192());
    } else if a2 < b2 {
        assert(a2 * b128() + b128() <= b2 * b128());
    } else if a1 < b1 {
        assert(a1 * b64() + b64() <= b1 * b64());
    }
}

/// Builds a canonical field element from limbs, rejecting any value that is
/// not strictly below the modulus.
pub fn fq_from_limbs(l0: u64, l1: u64, l2: u64, l3: u64) -> (r: Option<Fq>)
    ensures
        match r {
            Some(v) => v.wf() && v@ == limbs_v(l0, l1, l2, l3),
            None => limbs_v(l0, l1, l2, l3) >= q(),
        },
{
    let q3: u64 = 0x30644e72e131a029;
    let q2: u64 = 0xb85045b68181585d;
    let q1: u64 = 0x97816a916871ca8d;
    let q0: u64 = 0x3c208c16d87cfd47;
    let below = if l3 != q3 {
        l3 < q3
    } else if l2 != q2 {
        l2 < q2
    } else if l1 != q1 {
        l1 < q1
    } else {
        l0 < q0
    };
    if below {
        proof {
            lemma_lex_lt(l0, l1, l2, l3, q0, q1, q2, q3);
        }
        Some(Fq { l0, l1, l2, l3 })
    } else {
        proof {
            if !(l3 == q3 && l2 == q2 && l1 == q1 && l0 == q0) {
                lemma_lex_lt(q0, q1, q2, q3, l0, l1, l2, l3);
            }
        }
        None
    }
}

} // verus!
