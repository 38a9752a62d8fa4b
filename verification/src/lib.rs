//! Verified core of a small "how-to" web application: users create
//! instructions, attach ordered steps, and optionally upload an image per
//! step.  The centerpiece is the image-upload pipeline: demultiplex a
//! multipart body into named fields, validate the title, decode and
//! center-crop the image to a square, resize it to a fixed dimension, and
//! atomically record the step together with its join row to the parent
//! instruction.

pub mod errors;
pub mod handlers;
pub mod images;
pub mod multipart;
pub mod namegen;
pub mod parse;
pub mod store;
pub mod upload;
pub mod validate;

use vstd::prelude::*;

verus! {

/// Maximum title length in characters, after trimming.
pub const TITLE_MAX: usize = 80;

/// Minimum title length in characters, after trimming.
pub const TITLE_MIN: usize = 1;

/// Side length, in pixels, of the square that uploaded images are
/// cropped and resized to.
pub const IMAGE_SIZE: u32 = 1080;

/// Position assigned to a step inside its instruction when no explicit
/// ordering is supplied.
pub const DEFAULT_POSITION: i32 = 0;

} // verus!
