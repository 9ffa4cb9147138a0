//! The encode entry point: parse the format name against the closed
//! catalog, translate the dynamic options, hand the text to the engine's
//! writer, and wrap the produced matrix into its read-only view. An
//! unparseable format name fails before the engine is invoked; an engine
//! refusal is reported with the format and the data length.

use vstd::prelude::*;
use crate::error::Error;
use crate::engine::{engine_encode, engine_encode_result, matrix_dims, matrix_bits};
use crate::format::BarcodeFormat;
use crate::hints::{HintValue, spec_encode_hints, encode_hints_from_options};
use crate::matrix::MatrixView;
use crate::text::dec_of;

verus! {

/// The diagnostic for a format name outside the catalog.
pub open spec fn unknown_format_error(name: Seq<char>) -> Seq<char> {
    "unknown barcode format: "@ + name
}

/// The diagnostic when the engine cannot produce a matrix: it identifies
/// the format and the data length (in characters), then carries the
/// engine's own detail.
pub open spec fn encode_failure_message(
    format: BarcodeFormat,
    data_len: nat,
    detail: Seq<char>,
) -> Seq<char> {
    "encoding failed for format "@ + format.spec_name() + " with data length "@ + dec_of(data_len)
        + ": "@ + detail
}

/// Encodes text into a bit matrix of the requested format and canvas size.
/// The format name is parsed first and an unknown name is rejected before
/// any engine work; then the options are translated; the engine's writer is
/// a function of its arguments, so the outcome — the produced grid, or the
/// refusal and its diagnostic — is pinned to that function.
pub fn encode(
    data: &str,
    format_name: &str,
    width: i32,
    height: i32,
    opts: &Vec<(String, HintValue)>,
) -> (r: Result<MatrixView, Error>)
    ensures
        ({
            let f = BarcodeFormat::spec_parse(format_name@);
            let hints = spec_encode_hints(opts@);
            match r {
                Ok(v) => f matches Some(fmt) && hints is Ok && v.wf() && ({
                    let model = engine_encode_result(data@, fmt, width, height, hints->Ok_0);
                    &&& model matches Ok(grid)
                    &&& v.spec_width() as nat == grid.0
                    &&& v.spec_height() as nat == grid.1
                    &&& forall|x: int, y: int|
                        0 <= x < v.spec_width() && 0 <= y < v.spec_height()
                            ==> #[trigger] v.spec_get(x, y) == grid.2[(x, y)]
                }),
                Err(e) => match e {
                    Error::Validation(m) => if f is None {
                        m@ == unknown_format_error(format_name@)
                    } else {
                        hints is Err && m@ == hints->Err_0
                    },
                    Error::Encode(m) => f matches Some(fmt) && hints is Ok && ({
                        let model = engine_encode_result(data@, fmt, width, height, hints->Ok_0);
                        &&& model matches Err(me)
                        &&& m@ == encode_failure_message(fmt, data@.len(), me)
                    }),
                    _ => false,
                },
            }
        }),
{
    let format = match BarcodeFormat::parse(format_name) {
        Some(f) => f,
        None => {
            return Err(Error::Validation(
                String::from_str("unknown barcode format: ").concat(format_name),
            ));
        },
    };
    let hints = match encode_hints_from_options(opts) {
        Ok(hw) => hw.0,
        Err(e) => {
            return Err(e);
        },
    };
    match engine_encode(data, &format, width, height, &hints) {
        Ok(m) => Ok(MatrixView::from_engine(&m)),
        Err(m) => {
            let msg = String::from_str("encoding failed for format ")
                .concat(format.name())
                .concat(" with data length ")
                .concat(crate::text::usize_to_string(data.unicode_len()).as_str())
                .concat(": ")
                .concat(m.as_str());
            Err(Error::Encode(msg))
        },
    }
}

} // verus!
