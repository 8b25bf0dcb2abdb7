//! Arithmetic-circuit encoding of the "knowledge of a square root" relation
//! over the scalar field of BLS12-377, and the stage machine that drives a
//! proving run on it: local check, setup, prove, verify.
//!
//! The relation is written into a constraint system of `ark_relations` with
//! the field gadgets of `ark_r1cs_std`; proofs are verified by `ark_groth16`.

pub mod backend;
pub mod circuit;
pub mod failure;
pub mod pipeline;
pub mod scalar;
pub mod system;
