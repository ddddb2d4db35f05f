//! A small desktop creature that chases the pointer: its behaviour state
//! machine, its sprite addressing and the pixel compositor that draws it.

pub mod chance;
pub mod desktop;
pub mod fill;
pub mod oneko;
pub mod raster;
pub mod schedule;
pub mod sprite_sheet;
pub mod states;
pub mod steering;
