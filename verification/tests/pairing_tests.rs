//! Cross-validation of the gadget against the native halo2curves BN254
//! pairing, plus the documented edge cases.

use halo2curves::bn256;
use halo2curves::ff::Field;
use halo2curves::group::Curve;
use halo2curves::pairing::Engine;

use pairing_gadget::fq::{fq_from_limbs, Fq};
use pairing_gadget::fq2::Fq2;
use pairing_gadget::fq12::Fq12;
use pairing_gadget::pairing::{
    addition_step, doubling_step, g2_neg, g2affine_to_g2, CurveFamily, PairingContext,
    PairingError,
};
use pairing_gadget::on_prove::G2OnProvePrepared;
use pairing_gadget::points::{G1Affine, G2Affine};

fn fq_from_native(x: &bn256::Fq) -> Fq {
    let b = x.to_bytes();
    let l = |i: usize| u64::from_le_bytes(b[i..i + 8].try_into().unwrap());
    fq_from_limbs(l(0), l(8), l(16), l(24)).unwrap()
}

fn fq_to_native(x: &Fq) -> bn256::Fq {
    bn256::Fq::from_raw([x.l0, x.l1, x.l2, x.l3])
}

fn fq2_from_native(x: &bn256::Fq2) -> Fq2 {
    Fq2 { c0: fq_from_native(x.c0()), c1: fq_from_native(x.c1()) }
}

fn fq2_to_native(x: &Fq2) -> bn256::Fq2 {
    bn256::Fq2::new(fq_to_native(&x.c0), fq_to_native(&x.c1))
}

fn fq12_from_native(x: &bn256::Fq12) -> Fq12 {
    Fq12 {
        c0: pairing_gadget::fq12::Fq6 {
            c0: fq2_from_native(x.c0().c0()),
            c1: fq2_from_native(x.c0().c1()),
            c2: fq2_from_native(x.c0().c2()),
        },
        c1: pairing_gadget::fq12::Fq6 {
            c0: fq2_from_native(x.c1().c0()),
            c1: fq2_from_native(x.c1().c1()),
            c2: fq2_from_native(x.c1().c2()),
        },
    }
}

fn fq12_to_native(x: &Fq12) -> bn256::Fq12 {
    bn256::Fq12::new(
        bn256::Fq6::new(
            fq2_to_native(&x.c0.c0),
            fq2_to_native(&x.c0.c1),
            fq2_to_native(&x.c0.c2),
        ),
        bn256::Fq6::new(
            fq2_to_native(&x.c1.c0),
            fq2_to_native(&x.c1.c1),
            fq2_to_native(&x.c1.c2),
        ),
    )
}

fn g1_from_native(p: &bn256::G1Affine) -> G1Affine {
    G1Affine { x: fq_from_native(&p.x), y: fq_from_native(&p.y) }
}

fn g2_from_native(q: &bn256::G2Affine) -> G2Affine {
    G2Affine { x: fq2_from_native(&q.x), y: fq2_from_native(&q.y), z: false }
}

fn generators() -> (G1Affine, G2Affine) {
    (
        g1_from_native(&bn256::G1Affine::generator()),
        g2_from_native(&bn256::G2Affine::generator()),
    )
}

#[test]
fn generator_pair_with_negation_accepts() {
    let (p, q) = generators();
    let terms = vec![(p, q), (p, g2_neg(&q))];
    let mut ctx = PairingContext::new(CurveFamily::Bn254);
    ctx.check_pairing(&terms).unwrap();
    assert!(ctx.satisfied);
}

#[test]
fn single_generator_pair_rejects() {
    let (p, q) = generators();
    let mut ctx = PairingContext::new(CurveFamily::Bn254);
    ctx.check_pairing(&vec![(p, q)]).unwrap();
    assert!(!ctx.satisfied);
}

#[test]
fn corrupted_term_rejects() {
    let (p, q) = generators();
    let neg_p = G1Affine {
        x: p.x,
        y: fq_from_native(&(-fq_to_native(&p.y))),
    };
    let mut good = PairingContext::new(CurveFamily::Bn254);
    good.check_pairing(&vec![(p, q), (neg_p, q)]).unwrap();
    assert!(good.satisfied);
    let mut bad = PairingContext::new(CurveFamily::Bn254);
    bad.check_pairing(&vec![(p, q), (p, q)]).unwrap();
    assert!(!bad.satisfied);
}

#[test]
fn miller_loop_matches_native() {
    let (p, q) = generators();
    let mut ctx = PairingContext::new(CurveFamily::Bn254);
    let prep = ctx.prepare_g2(&q).unwrap();
    let ours = ctx.multi_miller_loop(&vec![(p, prep)]).unwrap();
    let native = bn256::multi_miller_loop(&[(
        &bn256::G1Affine::generator(),
        &bn256::G2Affine::generator(),
    )]);
    assert_eq!(ours, fq12_from_native(&native));
}

#[test]
fn pairing_matches_native() {
    let (p, q) = generators();
    let mut ctx = PairingContext::new(CurveFamily::Bn254);
    let ours = ctx.pairing(&vec![(p, q)]).unwrap();
    let native_gt = bn256::Bn256::pairing(
        &bn256::G1Affine::generator(),
        &bn256::G2Affine::generator(),
    );
    let ours_native = fq12_to_native(&ours);
    assert!(format!("{:?}", native_gt).contains(&format!("{:?}", ours_native)));
}

#[test]
fn identity_g2_is_rejected() {
    let (p, q) = generators();
    let identity = G2Affine { x: q.x, y: q.y, z: true };
    assert_eq!(g2affine_to_g2(&identity).unwrap_err(), PairingError::Synthesis);
    let mut ctx = PairingContext::new(CurveFamily::Bn254);
    assert_eq!(
        ctx.check_pairing(&vec![(p, identity)]).unwrap_err(),
        PairingError::Synthesis
    );
    assert!(ctx.satisfied);
}

#[test]
fn mismatched_family_is_not_implemented() {
    let (p, q) = generators();
    let mut ctx = PairingContext::new(CurveFamily::Other);
    assert_eq!(
        ctx.check_pairing(&vec![(p, q)]).unwrap_err(),
        PairingError::NotImplemented
    );
}

#[test]
fn g2_neg_is_involutive() {
    let (_, q) = generators();
    assert_eq!(g2_neg(&g2_neg(&q)), q);
}

#[test]
fn prepare_g2_is_deterministic() {
    let (_, q) = generators();
    let mut ctx = PairingContext::new(CurveFamily::Bn254);
    let a = ctx.prepare_g2(&q).unwrap();
    let b = ctx.prepare_g2(&q).unwrap();
    assert_eq!(a.coeffs, b.coeffs);
    assert_eq!(a.coeffs.len(), 91);
}

#[test]
fn doubling_then_addition_is_triple() {
    let (_, q) = generators();
    let lifted = g2affine_to_g2(&q).unwrap();
    let (d1, _) = doubling_step(&lifted);
    let (d2, _) = addition_step(&d1, &q);
    let z = fq2_to_native(&d2.z);
    let zi = z.invert().unwrap();
    let zi2 = zi * zi;
    let zi3 = zi2 * zi;
    let ax = fq2_to_native(&d2.x) * zi2;
    let ay = fq2_to_native(&d2.y) * zi3;
    let g = bn256::G2::generator();
    let triple = (g + g + g).to_affine();
    assert_eq!(ax, triple.x);
    assert_eq!(ay, triple.y);
}

#[test]
fn c_wi_accepts_derived_witness_and_rejects_wrong_one() {
    let (p, q) = generators();
    let terms = vec![(p, q), (p, g2_neg(&q))];
    let mut ctx = PairingContext::new(CurveFamily::Bn254);
    let mut prepared = Vec::new();
    for (g1, g2) in &terms {
        prepared.push((*g1, ctx.prepare_g2(g2).unwrap()));
    }
    let f = ctx.multi_miller_loop(&prepared).unwrap();
    let wi = fq12_from_native(&fq12_to_native(&f).invert().unwrap());
    let c = fq12_from_native(&bn256::Fq12::one());
    ctx.check_pairing_c_wi(&c, &wi, &terms).unwrap();
    assert!(ctx.satisfied);
    let mut bad = PairingContext::new(CurveFamily::Bn254);
    bad.check_pairing_c_wi(&c, &f, &terms).unwrap();
    assert!(!bad.satisfied);
}

#[test]
fn non_canonical_limbs_are_rejected() {
    assert!(fq_from_limbs(
        0x3c208c16d87cfd47,
        0x97816a916871ca8d,
        0xb85045b68181585d,
        0x30644e72e131a029,
    )
    .is_none());
    assert!(fq_from_limbs(0, 0, 0, 0).is_some());
}

#[test]
fn on_prove_check_accepts_derived_witness_and_rejects_wrong_one() {
    let (p, q) = generators();
    let mut coeffs = Vec::new();
    for _ in 0..91 {
        coeffs.push((q.x, q.y));
    }
    let terms = vec![(p, G2OnProvePrepared { coeffs })];
    let one = fq12_from_native(&bn256::Fq12::one());
    let mut ctx = PairingContext::new(CurveFamily::Bn254);
    let f = ctx
        .multi_miller_loop_on_prove_pairing(&one, &one, &terms)
        .unwrap();
    let wi = fq12_from_native(&fq12_to_native(&f).invert().unwrap());
    ctx.check_pairing_on_prove_pairing(&one, &wi, &terms).unwrap();
    assert!(ctx.satisfied);
    let mut bad = PairingContext::new(CurveFamily::Bn254);
    bad.check_pairing_on_prove_pairing(&one, &f, &terms).unwrap();
    assert!(!bad.satisfied);
}
