//! Emulation of the Texas Instruments TMS9918A video display processor.
//!
//! The chip is one value owned by the host: sixteen kilobytes of video memory,
//! eight configuration registers, the two-port (control and data) protocol by
//! which real software drives the device, and a renderer that turns memory
//! into pixels for the Graphics I and Text display modes.
//!
//! Every executable function carries a contract over [`ChipState`], the
//! mathematical model of the chip.

pub mod chip;
pub mod laws;
mod entropy;
pub mod memory;
pub mod mode;
pub mod palette;
pub mod ports;
pub mod raster;
pub mod registers;
pub mod render;
pub mod state;

pub use chip::TMS9918A;
pub use mode::{decode_video_mode, ConfigError, VideoMode};
pub use state::ChipState;
