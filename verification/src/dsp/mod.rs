pub mod engines;
pub mod fx_matrix;
pub mod guard;
pub mod modules;
pub mod pipeline;
