//! The queue of a printer: who holds it and which jobs it prints.

pub mod delete;
pub mod get;
pub mod post;
pub mod task;
pub mod timeout;
pub mod worker;

