//! The context that a host attachment owns.

pub mod factory;
