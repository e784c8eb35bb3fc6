//! Normalisation of OSRM-compatible route responses into a single route model.

pub mod annotations;
pub mod backend;
pub mod geometry;
pub mod incidents;
pub mod instructions;
pub mod laws;
pub mod models;
pub mod parser;
pub mod route;
pub mod scalar;
pub mod steps;
pub mod utterance;
pub mod views;
