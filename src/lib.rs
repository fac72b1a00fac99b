//! Frame-by-frame simulation core for small gear and paddle toys.
//!
//! All quantities are integers: positions and sizes in pixels (or any finer
//! unit the host picks), angular speeds in steps of `1 / SPEED_SCALE`
//! half-turns per frame. The host converts to floating point only to draw.
pub mod gear;
pub mod geometry;
pub mod meshed;
pub mod pong;

pub use gear::{Boost, Gear, SPEED_SCALE};
pub use geometry::Rect;
pub use meshed::{Hover, MeshedGears};
pub use pong::{Body, Keys, Pong, PongConfig, SIZE_LIMIT, Winner};
