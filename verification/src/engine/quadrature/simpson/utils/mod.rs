//! What the Simpson quadratures share.
mod simpson_points;
mod stencil;

pub use simpson_points::SimpsonPoints;
pub use stencil::all_values;
pub use stencil::checked_cube_sum;
pub use stencil::checked_line_sum;
pub use stencil::checked_plane_sum;
pub use stencil::checked_row_sum;
pub use stencil::cube_sum;
pub use stencil::first_failure;
pub use stencil::lemma_all_values;
pub use stencil::lemma_cube_sum;
pub use stencil::lemma_first_failure;
pub use stencil::lemma_plane_sum;
pub use stencil::lemma_row_sum;
pub use stencil::line_sum;
pub use stencil::plane_sum;
pub use stencil::row_sum;
pub use stencil::with_constant;
