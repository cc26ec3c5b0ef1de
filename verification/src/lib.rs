//! Core of a psychophysics experiment toolkit: the window/frame/renderer
//! subsystem that turns declarative stimulus descriptions into an ordered
//! scene of draw commands, resolves frame-accurate repeat/timing parameters,
//! and tracks per-window presentation state (frame ids, onset callbacks,
//! gamma/LUT compositor configuration).
//!
//! All quantities that display hardware reports as integers are kept as
//! integers here: times in microseconds, monitor refresh rates in
//! millihertz, and color channels, ratios and pixel lengths in fixed-point
//! micro units (1_000_000 == 1.0, or one pixel).

pub mod bitmaps;
pub mod color;
pub mod compositor;
pub mod config;
pub mod csv;
pub mod errors;
pub mod frame;
pub mod geometry;
pub mod present;
pub mod scene;
pub mod shapes;
pub mod stimuli;
pub mod transfer;
pub mod transform;
pub mod trig;
pub mod window;

