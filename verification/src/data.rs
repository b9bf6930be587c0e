//! Chat data and the (simulated) Matrix service.
pub mod matrix_service;
pub mod models;
