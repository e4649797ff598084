//! The values behind the calculator's form and its theme menu.

pub mod theme;
pub mod upgrade_context;
