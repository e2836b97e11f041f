pub mod app;
pub mod env;
pub mod state;
