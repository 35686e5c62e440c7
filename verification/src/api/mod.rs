pub mod models;
pub mod public;
pub mod admin;
pub mod register_flow;
