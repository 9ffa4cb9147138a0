//! The decode entry points: validate the input shape, translate the dynamic
//! options into typed hints, hand the pixels to the engine's multi-format
//! dispatch, and marshal what comes back. Validation always happens before
//! any engine work, a codec refusal and a decode miss are distinct kinds of
//! failure, and every diagnostic message has a stated shape.

use vstd::prelude::*;
use crate::error::Error;
use crate::engine::{
    engine_decode_luma, engine_decode_image, load_image, image_parses, image_parse_error,
};
use crate::hints::{HintValue, spec_decode_hints, decode_hints_from_options};
use crate::result::{DecodedResult, marshalled_shape};

verus! {

/// The diagnostic for a luminance buffer whose length does not match the
/// claimed dimensions.
pub open spec fn pixel_length_error() -> Seq<char> {
    "Pixel data length does not match width * height."@
}

/// The diagnostic for a path that names no file.
pub open spec fn not_found_error(path: Seq<char>) -> Seq<char> {
    "File not found: "@ + path
}

/// The diagnostic when the engine misses: a fixed prefix, then the engine's
/// own detail.
pub open spec fn decode_failure_message(detail: Seq<char>) -> Seq<char> {
    "RXing decoding failed: "@ + detail
}

/// The diagnostic when the engine misses on a file's contents: it carries
/// the file path, then the engine's own detail.
pub open spec fn decode_file_failure_message(path: Seq<char>, detail: Seq<char>) -> Seq<char> {
    "RXing decoding failed for file "@ + path + ": "@ + detail
}

/// The diagnostic when the codec refuses raw image bytes.
pub open spec fn load_failure_message(bytes: Seq<u8>) -> Seq<char> {
    "Failed to load image from bytes: "@ + image_parse_error(bytes)
}

/// The diagnostic when the codec refuses a file's contents: it carries the
/// file path.
pub open spec fn open_failure_message(path: Seq<char>, bytes: Seq<u8>) -> Seq<char> {
    "Failed to open or decode image file "@ + path + ": "@ + image_parse_error(bytes)
}

/// Decodes a raw grayscale buffer. The buffer length is validated against
/// the dimensions before anything else; then the options are translated;
/// only then does the engine see the pixels. A decode miss is a distinct,
/// terminal failure, never retried here. The translator's unknown-key
/// diagnostics are available from `decode_hints_from_options`.
pub fn decode_from_pixels(
    luma: &[u8],
    width: u32,
    height: u32,
    opts: &Vec<(String, HintValue)>,
) -> (r: Result<DecodedResult, Error>)
    ensures
        ({
            let dims_ok = crate::dims_match(luma@.len(), width as nat, height as nat);
            let hints = spec_decode_hints(opts@);
            match r {
                Ok(d) => dims_ok && hints is Ok && marshalled_shape(d),
                Err(e) => match e {
                    Error::Validation(m) => if !dims_ok {
                        m@ == pixel_length_error()
                    } else {
                        hints is Err && m@ == hints->Err_0
                    },
                    Error::Decode(m) => dims_ok && hints is Ok && (exists|d: Seq<char>|
                        m@ == decode_failure_message(d)),
                    _ => false,
                },
            }
        }),
{
    if !crate::buffer_matches_dims(luma.len(), width, height) {
        return Err(Error::Validation(String::from_str(
            "Pixel data length does not match width * height.",
        )));
    }
    let hints = match decode_hints_from_options(opts) {
        Ok(hw) => hw.0,
        Err(e) => {
            return Err(e);
        },
    };
    let pixels = vstd::slice::slice_to_vec(luma);
    match engine_decode_luma(pixels, width, height, &hints) {
        Ok(res) => Ok(DecodedResult::from_engine(&res)),
        Err(m) => {
            let msg = String::from_str("RXing decoding failed: ").concat(m.as_str());
            proof {
                assert(msg@ == decode_failure_message(m@));
            }
            Err(Error::Decode(msg))
        },
    }
}

/// Decodes an image container (PNG, JPEG, ...): the options are translated
/// first, then the codec materializes pixels, then the engine dispatches. A
/// codec refusal is reported as an input/output failure, exactly when the
/// codec cannot parse the bytes; a decode miss is its own kind.
pub fn decode_from_image_bytes(bytes: &[u8], opts: &Vec<(String, HintValue)>) -> (r: Result<
    DecodedResult,
    Error,
>)
    ensures
        ({
            let hints = spec_decode_hints(opts@);
            match r {
                Ok(d) => hints is Ok && image_parses(bytes@) && marshalled_shape(d),
                Err(e) => match e {
                    Error::Validation(m) => hints is Err && m@ == hints->Err_0,
                    Error::Io(m) => hints is Ok && !image_parses(bytes@) && m@
                        == load_failure_message(bytes@),
                    Error::Decode(m) => hints is Ok && image_parses(bytes@) && (exists|
                        d: Seq<char>,
                    |
                        m@ == decode_failure_message(d)),
                    _ => false,
                },
            }
        }),
{
    let hints = match decode_hints_from_options(opts) {
        Ok(hw) => hw.0,
        Err(e) => {
            return Err(e);
        },
    };
    match load_image(bytes) {
        Ok(img) => match engine_decode_image(img, &hints) {
            Ok(res) => Ok(DecodedResult::from_engine(&res)),
            Err(m) => {
                let msg = String::from_str("RXing decoding failed: ").concat(m.as_str());
                proof {
                    assert(msg@ == decode_failure_message(m@));
                }
                Err(Error::Decode(msg))
            },
        },
        Err(m) => {
            let msg = String::from_str("Failed to load image from bytes: ").concat(m.as_str());
            Err(Error::Io(msg))
        },
    }
}

/// Decodes the contents of a file that a caller has resolved: `None` means
/// the path names no file, which is its own kind of failure, reported
/// before anything is read or translated — never a codec failure and never
/// a decode miss. Codec and decode diagnostics both carry the file path.
pub fn decode_from_path_data(
    file: Option<&Vec<u8>>,
    path: &str,
    opts: &Vec<(String, HintValue)>,
) -> (r: Result<DecodedResult, Error>)
    ensures
        ({
            let hints = spec_decode_hints(opts@);
            match r {
                Ok(d) => file matches Some(b) && hints is Ok && image_parses(b@)
                    && marshalled_shape(d),
                Err(e) => match e {
                    Error::NotFound(m) => file is None && m@ == not_found_error(path@),
                    Error::Validation(m) => file is Some && hints is Err && m@ == hints->Err_0,
                    Error::Io(m) => file matches Some(b) && hints is Ok && !image_parses(b@)
                        && m@ == open_failure_message(path@, b@),
                    Error::Decode(m) => file matches Some(b) && hints is Ok && image_parses(b@)
                        && (exists|d: Seq<char>| m@ == decode_file_failure_message(path@, d)),
                    _ => false,
                },
            }
        }),
{
    let bytes = match file {
        None => {
            return Err(Error::NotFound(String::from_str("File not found: ").concat(path)));
        },
        Some(b) => b,
    };
    let hints = match decode_hints_from_options(opts) {
        Ok(hw) => hw.0,
        Err(e) => {
            return Err(e);
        },
    };
    match load_image(bytes.as_slice()) {
        Ok(img) => match engine_decode_image(img, &hints) {
            Ok(res) => Ok(DecodedResult::from_engine(&res)),
            Err(m) => {
                let msg = String::from_str("RXing decoding failed for file ")
                    .concat(path)
                    .concat(": ")
                    .concat(m.as_str());
                proof {
                    assert(msg@ == decode_file_failure_message(path@, m@));
                }
                Err(Error::Decode(msg))
            },
        },
        Err(m) => {
            let msg = String::from_str("Failed to open or decode image file ")
                .concat(path)
                .concat(": ")
                .concat(m.as_str());
            Err(Error::Io(msg))
        },
    }
}

} // verus!
