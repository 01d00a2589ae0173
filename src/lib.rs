//! Alignment and stacking of astronomical light frames.
//!
//! The library holds the decisions of the stacking pipeline: which detected blobs
//! count as stars, how descriptor matches become point correspondences, how frames
//! are folded into a running mean, and how a group of entries moves through the
//! stages of a pipeline. Decoding, warping and the other image primitives are done
//! by the caller, which hands their results in as plain values.
use vstd::prelude::*;

pub mod error;
pub mod entry;
pub mod frame;
pub mod group;
pub mod homography;
pub mod pipeline;
pub mod stacker;
pub mod star;
pub mod util;

pub use error::{Error, Result};
pub use frame::Frame;
pub use entry::{Entries, Entry, Image, Path, PathKind};
pub use group::{Group, Medo};
pub use pipeline::{Pipeline, Run, Stage};
