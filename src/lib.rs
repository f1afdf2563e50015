//! A compression boundary over the Snappy raw format: compress or decompress
//! a borrowed byte region into a freshly owned buffer whose length is
//! reported as a 32-bit signed size, or report failure with no buffer at all.

pub mod codec;
pub mod boundary;
