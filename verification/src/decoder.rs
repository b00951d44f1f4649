//! The rectangle decoders: each turns the bytes of one rectangle into image
//! fragments.

pub mod copy_rect;
pub mod indexed;
pub mod raw;
pub mod tight;
pub mod zrle;
