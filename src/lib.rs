//! Integer core of a path-tracing renderer: the output pixel grid, its
//! plain-text PPM encoding, the render settings that size the grid, and the
//! control decisions of light transport (bounce budget, absorption, the
//! dielectric reflect-or-refract choice).

pub mod image;
pub mod ppm;
pub mod path;
pub mod settings;
