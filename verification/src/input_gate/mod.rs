//! Checks that a prompt is grounded enough to be acted on.

pub mod integrity;
