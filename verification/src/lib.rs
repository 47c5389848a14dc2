//! Still-image filtering over text-safe payloads.
//!
//! A payload is Base64 text that carries an encoded raster image. The
//! pipeline turns it into an RGBA [`buffer::PixelBuffer`], applies one
//! filter and hands back a Base64 payload that carries a PNG.
//!
//! Strengths are whole numbers of hundredths: `100` stands for an
//! intensity of `1.0`. The filters that are applied here work on whole
//! numbers; the one that does not, Gaussian smoothing, is handed to the
//! caller as a step of its own (see [`pipeline`]).

pub mod buffer;
pub mod codec;
pub mod error;
pub mod filter;
pub mod pipeline;
pub mod transport;
