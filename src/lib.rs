pub mod color;
pub mod config;
pub mod dates;
pub mod diffusion;
pub mod effect;
pub mod effectlog;
pub mod html;
pub mod kernels;
pub mod media;
pub mod names;
pub mod nasa;
pub mod ordered;
pub mod pattern;
pub mod quantize;
pub mod random;
pub mod runlog;
pub mod strategy;
pub mod surface;
pub mod text;
