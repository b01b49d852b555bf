//! A text-mode display driver: an 80 x 25 grid of character cells with a
//! software cursor, line wrap and scroll-on-overflow.

pub mod buffer;
pub mod color;
pub mod laws;
pub mod writer;

pub use buffer::ScreenChar;
pub use color::{Color, ColorCode};
pub use writer::{Writer, _print};
