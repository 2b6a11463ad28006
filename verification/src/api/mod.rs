//! The REST surface.
pub mod answer_laws;
pub mod display;
pub mod laws;
pub mod routes;
pub mod status;
