pub mod bubble;
pub mod model;
pub mod service;
pub mod native;
pub mod store;
pub mod ui;
pub mod presentation_policy;
pub mod ui_policy;
pub mod ui_geometry;
