pub mod contribution_cells;
pub mod farm;
pub mod grasses;
pub mod home;
pub mod objects;
pub mod renderable;
pub mod trees;
