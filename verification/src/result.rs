//! The external result shape and its marshaller: one explicit conversion
//! from the engine's result object into a transport-stable value. Metadata
//! is stringified by the engine's stable debug form and kept sorted, so that
//! equal metadata always marshals to the same sequence of pairs.

use vstd::prelude::*;
use vstd::relations::sorted_by;
use crate::engine::{
    engine_result_text, engine_result_raw_bytes, engine_result_num_bits, engine_result_points,
    engine_result_format_name, engine_result_metadata, engine_result_timestamp, result_text,
    result_raw_bytes, result_num_bits, result_points, result_format_name, result_metadata,
    result_timestamp,
};
use crate::meta::{entries_view, metadata_leq, sort_metadata};

verus! {

/// One detection point, each coordinate as the exact bit pattern of the
/// engine's single-precision value.
#[derive(Clone, Copy, PartialEq, Eq, Structural, Debug)]
pub struct DecodedPoint {
    pub x_bits: u32,
    pub y_bits: u32,
}

/// The external decode result: text, raw bytes, bit count, detection
/// points, stringified format tag, stringified metadata and the engine's
/// timestamp.
///
/// `barcode_format` is the engine's display form of the detected format
/// (for instance "qrcode"), not the canonical catalog name ("QR_CODE"):
/// the catalog names are what callers pass in, the display form is what
/// the engine reports out.
#[derive(Debug)]
pub struct DecodedResult {
    pub text: String,
    pub raw_bytes: Option<Vec<u8>>,
    pub num_bits: usize,
    pub result_points: Option<Vec<DecodedPoint>>,
    pub barcode_format: String,
    pub result_metadata: Option<Vec<(String, String)>>,
    pub timestamp: u128,
}

/// The stable well-formedness of a marshalled result: everything the engine
/// supplies is present, and the metadata is in its sorted shape.
pub open spec fn marshalled_shape(d: DecodedResult) -> bool {
    &&& d.raw_bytes is Some
    &&& d.result_points is Some
    &&& d.result_metadata matches Some(md) && sorted_by(entries_view(md@), metadata_leq())
}

impl DecodedResult {
    /// Marshals the engine's result object into the external shape. Every
    /// field the engine supplies is carried over; metadata entries are
    /// sorted into the stable shape.
    pub fn from_engine(res: &rxing::RXingResult) -> (r: DecodedResult)
        ensures
            r.text@ == result_text(*res),
            r.raw_bytes matches Some(b) && b@ == result_raw_bytes(*res),
            r.num_bits as nat == result_num_bits(*res),
            r.result_points matches Some(p) && p@.len() == result_points(*res).len()
                && forall|i: int|
                    0 <= i < p@.len() ==> (#[trigger] p@[i]).x_bits == result_points(*res)[i].0
                        && p@[i].y_bits == result_points(*res)[i].1,
            r.barcode_format@ == result_format_name(*res),
            r.result_metadata matches Some(md) && sorted_by(entries_view(md@), metadata_leq())
                && entries_view(md@).to_multiset() == result_metadata(*res),
            r.timestamp as nat == result_timestamp(*res),
            marshalled_shape(r),
    {
        let text = engine_result_text(res);
        let raw_bytes = engine_result_raw_bytes(res);
        let num_bits = engine_result_num_bits(res);
        let raw_points = engine_result_points(res);
        let barcode_format = engine_result_format_name(res);
        let metadata = sort_metadata(engine_result_metadata(res));
        let timestamp = engine_result_timestamp(res);

        let mut points: Vec<DecodedPoint> = Vec::new();
        let n = raw_points.len();
        let mut i: usize = 0;
        while i < n
            invariant
                n == raw_points@.len(),
                i <= n,
                points@.len() == i,
                forall|j: int|
                    0 <= j < i ==> (#[trigger] points@[j]).x_bits == raw_points@[j].0
                        && points@[j].y_bits == raw_points@[j].1,
            decreases n - i,
        {
            let (x_bits, y_bits) = raw_points[i];
            points.push(DecodedPoint { x_bits, y_bits });
            i = i + 1;
        }

        DecodedResult {
            text,
            raw_bytes: Some(raw_bytes),
            num_bits,
            result_points: Some(points),
            barcode_format,
            result_metadata: Some(metadata),
            timestamp,
        }
    }
}

} // verus!
