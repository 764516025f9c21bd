//! The image transcoding pipeline: normalizes a raw RGBA pixel buffer into
//! a portable PNG-encoded, base64-carried representation. This is the one
//! place a real format conversion happens; the enumeration only relabels.

use vstd::prelude::*;
use vstd::string::StringExecFns;
use crate::outside::{base64_of, base64_encode, png_of, png_ok, png_encode};

verus! {

/// Why the pipeline failed.
#[derive(Debug, Clone, PartialEq, Eq)]
pub enum PipelineError {
    /// The buffer length is not `width * height * 4`.
    InvalidBuffer,
    /// The PNG encoder reported an error; its message is kept.
    EncodeFailed(String),
}

/// A tightly packed RGBA buffer of exactly `width * height * 4` bytes.
pub open spec fn valid_rgba_len(len: int, width: u32, height: u32) -> bool {
    len == width * height * 4
}

/// Convert a raw RGBA buffer into its PNG encoding, carried as base64, with
/// the format tag and the dimensions. Fails with `InvalidBuffer` exactly
/// when the buffer length does not match the dimensions, succeeds exactly
/// when the length matches and the encoder accepts the buffer — which it
/// does for any nonzero dimensions — and reports an encoder-side failure
/// as `EncodeFailed`.
pub fn process_image_data(image_data: &Vec<u8>, width: u32, height: u32) -> (r: Result<
    (String, String, (u32, u32)),
    PipelineError,
>)
    ensures
        (r matches Err(e) && e == PipelineError::InvalidBuffer) <==> !valid_rgba_len(
            image_data@.len() as int,
            width,
            height,
        ),
        r is Ok <==> valid_rgba_len(image_data@.len() as int, width, height) && png_ok(
            image_data@,
            width,
            height,
        ),
        valid_rgba_len(image_data@.len() as int, width, height) && 0 < width && 0 < height
            ==> r is Ok,
        r matches Ok(out) ==> {
            &&& out.0@ == base64_of(png_of(image_data@, width, height))
            &&& out.0@.len() > 0
            &&& out.1@ == "png"@
            &&& out.2 == (width, height)
        },
{
    let wu: u128 = width as u128;
    let hu: u128 = height as u128;
    proof {
        assert(wu * hu <= 0xFFFFFFFFu128 * 0xFFFFFFFFu128) by (nonlinear_arith)
            requires
                wu <= 0xFFFFFFFFu128,
                hu <= 0xFFFFFFFFu128,
        ;
    }
    let expected: u128 = wu * hu * 4;
    if (image_data.len() as u128) != expected {
        return Err(PipelineError::InvalidBuffer);
    }
    match png_encode(image_data, width, height) {
        Ok(png) => {
            let b64 = base64_encode(&png);
            Ok((b64, String::from_str("png"), (width, height)))
        },
        Err(e) => Err(PipelineError::EncodeFailed(e)),
    }
}

} // verus!
