//! Verified core of a two-class "interleaving moons" point-dataset generator.
//!
//! The generator's decisions are plain integer logic and live here, proved:
//! which inputs are valid (over the IEEE-754 bit patterns of the `f32` and
//! `f64` parameters), which class label each sample index gets, and the
//! invariant that ties the sample and label sequences together.
//! Floating-point arithmetic itself (evenly spaced angles, sine/cosine,
//! Gaussian noise) is outside the verifier's model and stays with the caller,
//! which hands coordinates in as `f32` bit patterns.

pub mod dataset;
pub mod float_bits;
pub mod params;
