//! A passive desktop-session recorder: screen samples, mouse clicks and key
//! presses, each stored with a compact visual embedding of the screen.
//!
//! This crate holds the recorder's logic. Capturing the screen, hooking the
//! input devices and running the embedding model happen at the edge, in the
//! program that drives these functions.
use vstd::prelude::*;

pub mod blob;
pub mod click;
pub mod events;
pub mod frame;
pub mod sampler;
pub mod store;
pub mod tensor;

verus! {

/// Side of the square thumbnail handed to the embedding model.
pub const THUMB_SIZE: u32 = 224;

/// JPEG quality of the thumbnail.
pub const JPEG_QUALITY: u8 = 70;

/// Side of the pixel window cropped around a click.
pub const CROP_SIZE: u32 = 10;

/// Length of the embedding vector that the model produces.
pub const EMBEDDING_LEN: usize = 512;

/// Seconds between two polls of the sampler.
pub const POLL_INTERVAL_SECS: u64 = 1;

/// Longest time, in seconds, between two screen samples when the active
/// window's title does not change.
pub const DWELL_SECS: u64 = 600;

/// Path of the embedding model.
pub const MODEL_PATH: &'static str = "tiny_clip/model.onnx";

/// Path of the record store.
pub const STORE_PATH: &'static str = "screen_log.db";

} // verus!
