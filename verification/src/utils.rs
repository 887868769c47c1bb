pub mod detection;
pub mod fraction;
pub mod image;
pub mod opts;
pub mod pixel;
