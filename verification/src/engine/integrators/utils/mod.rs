//! What the integrators share.
mod accumulation;
mod bounds_configurator;

pub use accumulation::accumulate;
pub use accumulation::accumulated;
pub use accumulation::EquationAtFirst;
pub use accumulation::EquationAtFirstTwo;
pub use accumulation::ModelAtFirst;
pub use accumulation::ModelAtFirstTwo;
pub use bounds_configurator::BoundsConfigurator;
