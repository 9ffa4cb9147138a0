//! A bridge layer over a multi-format barcode engine: it turns a dynamic,
//! string-keyed option set into typed hints, validates raw pixel input,
//! dispatches decoding and encoding to the engine, and marshals the engine's
//! results into a transport-stable shape.

use vstd::prelude::*;

pub mod decode;
pub mod encode;
pub mod engine;
pub mod error;
pub mod format;
pub mod hints;
pub mod matrix;
pub mod meta;
pub mod result;
pub mod text;

verus! {

/// A raw luminance buffer is usable only when its length equals the claimed
/// pixel count.
pub open spec fn dims_match(len: nat, width: nat, height: nat) -> bool {
    len == width * height
}

/// Checks a buffer length against the claimed image dimensions, without any
/// risk of overflow in the product.
pub fn buffer_matches_dims(len: usize, width: u32, height: u32) -> (r: bool)
    ensures
        r == dims_match(len as nat, width as nat, height as nat),
{
    proof {
        assert((width as u64) * (height as u64) <= 0xffff_ffff * 0xffff_ffffu64)
            by (nonlinear_arith)
            requires
                width as u64 <= 0xffff_ffff,
                height as u64 <= 0xffff_ffff,
        ;
    }
    (width as u64) * (height as u64) == (len as u64)
}

} // verus!
