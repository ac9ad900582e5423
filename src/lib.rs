//! Pixel formats and colour packing, and a bridge that hands stateful
//! callbacks to a timer facility that only knows a function pointer and one
//! opaque context value.

pub mod error;
pub mod pixels;
pub mod timer;
pub mod facility;
