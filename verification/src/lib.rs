//! A pairing gadget for the BN254 curve: the Miller-loop step functions,
//! multi-pairing orchestration, final exponentiation and the witness-assisted
//! pairing-check variants, all specified and verified over an integer model
//! of the base field.
//!
//! The base-field arithmetic itself is consumed from halo2curves through a
//! handful of trusted primitives in `fq`; everything built on top of them is
//! verified.

pub mod fq;
pub mod fq2;
pub mod fq12;
pub mod points;
pub mod pairing;
pub mod final_exp;
pub mod gadget;
pub mod witness;
pub mod laws;
pub mod on_prove;
