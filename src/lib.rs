//! Greatest common factor of two integers, computed with the Euclidean
//! algorithm and proved against a divisibility characterisation.

pub mod divisibility;
pub mod kernel;

pub use divisibility::{divides, gcf, is_greatest_common_factor};
pub use kernel::{calculate_gcf, GcfError};
