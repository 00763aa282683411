pub mod error;
pub mod k8850;
pub mod model;
