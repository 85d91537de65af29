//! Verified core of a virtual scrolling grid: which rows and items to render
//! for a viewport, how scroll events are coalesced into position reads, and
//! how the two scroll targets shape the grid's outer element.
pub mod layout;
pub mod target;
pub mod throttle;

pub use layout::{GridLayout, RenderedItem};
pub use target::ScrollTarget;
pub use throttle::ScrollThrottle;
