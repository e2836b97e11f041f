pub mod contributions;
pub mod languages;
pub mod stats;
pub mod structures;
