//! The composition controller and the vocabulary it speaks.

pub mod client_action;
pub mod composition;
pub mod controller;
pub mod executor;
pub mod full_width;
pub mod input_mode;
pub mod laws;
pub mod text;
pub mod user_action;
