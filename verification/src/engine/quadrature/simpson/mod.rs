//! The composite Simpson rule.
mod simpson_quadrature_double_integral;
mod simpson_quadrature_single_integral;
mod simpson_quadrature_triple_integral;
mod simpson_range;
pub mod utils;

pub use simpson_quadrature_double_integral::SimpsonModelOfTwo;
pub use simpson_quadrature_double_integral::SimpsonQuadratureDoubleIntegral;
pub use simpson_quadrature_single_integral::SimpsonModelOfOne;
pub use simpson_quadrature_single_integral::SimpsonQuadratureSingleIntegral;
pub use simpson_quadrature_triple_integral::SimpsonModelOfThree;
pub use simpson_quadrature_triple_integral::SimpsonQuadratureTripleIntegral;
pub use simpson_range::lemma_simpson_step_positions;
pub use simpson_range::lemma_simpson_steps;
pub use simpson_range::simpson_steps;
pub use simpson_range::steps_through;
pub use simpson_range::SimpsonRangeGenerator;
