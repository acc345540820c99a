//! Curve point representations: affine G1, affine and projective points on
//! the twist, and prepared line-coefficient sequences.

use vstd::prelude::*;
use crate::fq::Fq;
use crate::fq2::{Fq2, Fq2V, fq2_neg_v, fq2_one_v};

verus! {

/// The integer model of an affine G1 point.
pub ghost struct G1V {
    pub x: int,
    pub y: int,
}

/// The integer model of an affine twist point; `z` is the identity flag.
pub ghost struct G2AffV {
    pub x: Fq2V,
    pub y: Fq2V,
    pub z: bool,
}

/// The integer model of a projective (Jacobian) twist point.
pub ghost struct G2ProjV {
    pub x: Fq2V,
    pub y: Fq2V,
    pub z: Fq2V,
}

/// The integer model of one line-coefficient triple.
pub ghost struct CoeffsV {
    pub c0: Fq2V,
    pub c1: Fq2V,
    pub c2: Fq2V,
}

/// An affine G1 point, one pairing input.
#[derive(Clone, Copy, PartialEq, Eq, Structural, Debug)]
pub struct G1Affine {
    pub x: Fq,
    pub y: Fq,
}

/// An affine twist point; the third coordinate is the identity flag, which
/// the gadget rejects rather than supports.
#[derive(Clone, Copy, PartialEq, Eq, Structural, Debug)]
pub struct G2Affine {
    pub x: Fq2,
    pub y: Fq2,
    pub z: bool,
}

/// A projective twist point used inside the Miller loop.
#[derive(Clone, Copy, PartialEq, Eq, Structural, Debug)]
pub struct G2 {
    pub x: Fq2,
    pub y: Fq2,
    pub z: Fq2,
}

/// One line-coefficient triple emitted by a doubling or addition step.
#[derive(Clone, Copy, PartialEq, Eq, Structural, Debug)]
pub struct LineCoeffs {
    pub c0: Fq2,
    pub c1: Fq2,
    pub c2: Fq2,
}

/// Prepared G2 data: the ordered line-coefficient sequence of one twist
/// point, reusable across every G1 partner of a multi-pairing.
#[derive(Clone, Debug)]
pub struct G2Prepared {
    pub coeffs: Vec<LineCoeffs>,
}

impl View for G1Affine {
    type V = G1V;

    open spec fn view(&self) -> G1V {
        G1V { x: self.x@, y: self.y@ }
    }
}

impl View for G2Affine {
    type V = G2AffV;

    open spec fn view(&self) -> G2AffV {
        G2AffV { x: self.x@, y: self.y@, z: self.z }
    }
}

impl View for G2 {
    type V = G2ProjV;

    open spec fn view(&self) -> G2ProjV {
        G2ProjV { x: self.x@, y: self.y@, z: self.z@ }
    }
}

impl View for LineCoeffs {
    type V = CoeffsV;

    open spec fn view(&self) -> CoeffsV {
        CoeffsV { c0: self.c0@, c1: self.c1@, c2: self.c2@ }
    }
}

pub open spec fn coeffs_seq_v(s: Seq<LineCoeffs>) -> Seq<CoeffsV> {
    s.map_values(|c: LineCoeffs| c@)
}

impl View for G2Prepared {
    type V = Seq<CoeffsV>;

    open spec fn view(&self) -> Seq<CoeffsV> {
        coeffs_seq_v(self.coeffs@)
    }
}

impl G1Affine {
    pub open spec fn wf(&self) -> bool {
        self.x.wf() && self.y.wf()
    }
}

impl G2Affine {
    pub open spec fn wf(&self) -> bool {
        self.x.wf() && self.y.wf()
    }
}

impl G2 {
    pub open spec fn wf(&self) -> bool {
        self.x.wf() && self.y.wf() && self.z.wf()
    }
}

impl LineCoeffs {
    pub open spec fn wf(&self) -> bool {
        self.c0.wf() && self.c1.wf() && self.c2.wf()
    }
}

impl G2Prepared {
    pub open spec fn wf(&self) -> bool {
        forall|i: int| 0 <= i < self.coeffs@.len() ==> (#[trigger] self.coeffs@[i]).wf()
    }
}

/// Negation of an affine twist point: only the second coordinate changes,
/// the identity flag is untouched.
pub open spec fn g2_neg_v(a: G2AffV) -> G2AffV {
    G2AffV { x: a.x, y: fq2_neg_v(a.y), z: a.z }
}

/// Lifting an affine twist point to projective coordinates with `z = 1`.
pub open spec fn g2_lift_v(a: G2AffV) -> G2ProjV {
    G2ProjV { x: a.x, y: a.y, z: fq2_one_v() }
}

/// Appending one coefficient triple commutes with taking views.
pub proof fn lemma_coeffs_seq_push(s: Seq<LineCoeffs>, c: LineCoeffs)
    ensures
        coeffs_seq_v(s.push(c)) == coeffs_seq_v(s).push(c@),
{
    assert(coeffs_seq_v(s.push(c)) =~= coeffs_seq_v(s).push(c@));
}

} // verus!
