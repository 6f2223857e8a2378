pub mod model;
pub mod native;
pub mod store;
pub mod service;
