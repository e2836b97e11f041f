pub mod date;
pub mod render;
