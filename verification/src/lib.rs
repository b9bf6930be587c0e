//! Terminal Matrix chat client: the input-editing, form, room and message
//! logic, with its contracts proved by Verus.
use vstd::prelude::*;

pub mod app;
pub mod clock;
pub mod data;
pub mod matrix_service;
pub mod models;
pub mod screens;
pub mod settings;
pub mod text;
pub mod ui;

verus! {

} // verus!
