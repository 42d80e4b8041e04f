pub mod image;
pub mod material;
pub mod random;
pub mod render;
