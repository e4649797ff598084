//! What the views read and change: the theme in force and the values of the
//! enhancement form.

pub mod theme_view_model;
pub mod upgrade_context_view_model;
