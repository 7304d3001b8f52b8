//! Integer-exact core of a software rasterizer: pixel formats and texture
//! storage, texel addressing and decoding, render-target attachment
//! bookkeeping, scratch register banks, matrix transposition, and the integer
//! helpers they share.

pub mod framebuffer;
pub mod matrix;
pub mod registers;
pub mod texture;
pub mod utility;
