//! Feedforward inference over fully-connected, layered neural networks.
//!
//! The crate is generic over the scalar type: every algorithm is verified
//! against the abstract arithmetic of the [`scalar::Scalar`] trait, so the
//! proofs hold for any element type a caller binds (integers in this crate,
//! floating point in unverified adapter code).

pub mod activation_fn;
pub mod blaf;
pub mod error;
pub mod neural_net;
pub mod num_gen;
pub mod scalar;
pub mod topology;
