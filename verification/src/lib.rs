//! Cost-minimising strategy search for scroll enhancement, with the
//! form, tooltip and lookup rules of the calculator built around it.

pub mod api;
pub mod input;
pub mod models;
pub mod state;
pub mod strategy;
pub mod text;
pub mod utils;
pub mod view_models;
