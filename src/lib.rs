pub mod curve;
pub mod domain;
pub mod field;
pub mod poly;
pub mod settings;
pub mod setup;
