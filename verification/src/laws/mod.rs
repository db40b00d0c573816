//! What holds of every integration.
//!
//! Each law is a proof function over the integrals as mathematics: its
//! parameters are the law's inputs, its `ensures` is the law.
pub mod channels;
pub mod constant_integrand;
pub mod repeatability;
pub mod reversed_limits;
pub mod stepping;
pub mod zero_width;
