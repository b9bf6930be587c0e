//! Persisted user settings.
use vstd::prelude::*;

verus! {

#[derive(Debug)]
pub struct Settings {
    pub username: String,
}

} // verus!
