//! In-memory 8-bit images.
use vstd::prelude::*;

use crate::error::{Error, Result};

verus! {

/// An 8-bit image: `rows × cols` pixels of `channels` interleaved samples each,
/// stored row after row.
#[derive(Clone, Debug)]
pub struct Frame {
    pub rows: usize,
    pub cols: usize,
    pub channels: usize,
    pub data: Vec<u8>,
}

/// Number of samples in an image of the given shape.
pub open spec fn sample_count(rows: nat, cols: nat, channels: nat) -> nat {
    rows * cols * channels
}

impl Frame {
    /// The sample buffer has exactly one entry per sample.
    pub open spec fn wf(&self) -> bool {
        self.data@.len() == sample_count(self.rows as nat, self.cols as nat, self.channels as nat)
    }

    /// Both images have the same rows, columns and channels.
    pub open spec fn same_shape(&self, other: &Frame) -> bool {
        &&& self.rows == other.rows
        &&& self.cols == other.cols
        &&& self.channels == other.channels
    }

    /// Index of the sample of channel `c` of pixel (`x`, `y`).
    pub open spec fn index_of(&self, x: int, y: int, c: int) -> int {
        (y * self.cols + x) * self.channels + c
    }

    /// Build an image from its samples; fails when their number does not match the shape.
    pub fn new(rows: usize, cols: usize, channels: usize, data: Vec<u8>) -> (r: Result<Frame>)
        ensures
            r is Ok <==> data@.len() == sample_count(rows as nat, cols as nat, channels as nat),
            r matches Ok(f) ==> f.rows == rows && f.cols == cols && f.channels == channels
                && f.data@ == data@ && f.wf(),
            r matches Err(e) ==> e is FrameMismatch,
    {
        let len = data.len();
        let n: Option<usize> = if rows == 0 || cols == 0 || channels == 0 {
            proof {
                assert(rows * cols * channels == 0) by (nonlinear_arith)
                    requires
                        rows == 0 || cols == 0 || channels == 0,
                ;
            }
            Some(0)
        } else {
            proof {
                assert(rows * cols <= rows * cols * channels) by (nonlinear_arith)
                    requires
                        channels >= 1,
                ;
            }
            match rows.checked_mul(cols) {
                Some(rc) => {
                    let m = rc.checked_mul(channels);
                    proof {
                        if let Some(v) = m {
                            assert(v == rows * cols * channels);
                        }
                    }
                    m
                },
                None => None,
            }
        };
        assert(n matches Some(v) ==> v == rows * cols * channels);
        assert(n is None ==> rows * cols * channels > usize::MAX);
        match n {
            Some(n) => {
                if n == len {
                    let f = Frame { rows, cols, channels, data };
                    Ok(f)
                } else {
                    Err(Error::FrameMismatch)
                }
            },
            None => Err(Error::FrameMismatch),
        }
    }
}

} // verus!
