//! Decisions of a media display: a STUN responder, the choice of a screen mode, the commands that
//! draw a video frame, and the handling of what a media pipeline reports.
pub mod addr;
pub mod wire;
pub mod codec;
pub mod stun;
pub mod window;
pub mod display;
pub mod frames;
pub mod renderer;
pub mod memory;
pub mod setup;
pub mod video;
