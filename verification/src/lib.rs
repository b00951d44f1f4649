//! A remote-framebuffer (RFB/VNC) client engine: it turns the byte chunks that a
//! transport delivers into bytes to send back and a queue of events for the
//! presentation layer.

pub mod decoder;
pub mod des;
pub mod laws;
pub mod messages;
pub mod model;
pub mod stream;
pub mod types;
pub mod utils;
pub mod vnc;
pub mod wire;
pub mod x11cursor;
pub mod x11keyboard;
pub mod zlib;
