pub mod color;
pub mod coordinate;
pub mod date;
pub mod encode;
pub mod extractor;
pub mod http;
pub mod string;
pub mod text;
