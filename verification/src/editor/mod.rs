pub mod curve;
pub mod fx_matrix_grid;
