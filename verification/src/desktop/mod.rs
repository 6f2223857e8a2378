pub mod geometry;
pub mod state;
pub mod store;
