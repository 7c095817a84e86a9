pub mod laws;
pub mod solver;
