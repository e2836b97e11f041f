pub mod farm;
pub mod index;
pub mod render_page;
