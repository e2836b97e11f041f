pub mod fetcher;
pub mod render;
