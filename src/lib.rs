//! Integer side of a small colour-math library: 8-bit RGB colours and their
//! hex codes, generic component-wise colour triples, the corner pattern of the
//! hue wheel, and the index arithmetic that maps wavelengths onto a
//! colour-matching table.
pub mod hue;
pub mod rgb24;
pub mod spectrum;
pub mod triple;

pub use hue::{hue_corner, Channel, HueCorner};
pub use rgb24::ColorRgbU8;
pub use spectrum::{table_wavelength, wavelength_index, wavelength_sweep, TABLE_START_NM};
pub use triple::{Color3, Color4};
