//! The integrators: the outer loop over the first variable, and the nested
//! integrators that turn an integrand of two or three variables into one of
//! one variable less.
mod first_integrator;
mod second_integrator;
mod third_integrator;
pub mod utils;

pub use first_integrator::FirstIntegrator;
pub use second_integrator::SecondIntegrator;
pub use second_integrator::SecondIntegratorModel;
pub use third_integrator::ThirdIntegrator;
pub use third_integrator::ThirdIntegratorModel;
