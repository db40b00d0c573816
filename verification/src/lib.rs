//! Definite integrals of one, two or three variables by the composite Simpson
//! rule, computed exactly on an integer grid.
//!
//! Every number in this library is an `i128`: a coordinate counts grid ticks along
//! its axis, an integrand value counts units of whatever the caller measures.
//! The only roundings are the divisions that the rule itself contains (by 2 for
//! the midpoint of the final panel, by 3, 9 or 27 for the Simpson constant), and
//! they round toward zero. A number that leaves the symmetric range
//! `-i128::MAX ..= i128::MAX` is reported as [`errors::Error::Overflow`].
pub mod calculation_functions;
pub mod engine;
pub mod errors;
pub mod laws;

pub use calculation_functions::calculate_double_integral_simpson;
pub use calculation_functions::calculate_single_integral_simpson;
pub use calculation_functions::calculate_triple_integral_simpson;
