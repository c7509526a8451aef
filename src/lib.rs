pub mod config;
pub mod session;
pub mod status;
pub mod task;
