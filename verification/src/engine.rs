//! The trusted boundary to the external collaborators: the barcode engine
//! (detection, decoding and encoding of the symbologies themselves) and the
//! image codec (container parsing). Everything here is a thin wrapper whose
//! contract names what the collaborator hands back; the logic around these
//! calls is verified elsewhere in this crate.

use vstd::prelude::*;
use crate::format::BarcodeFormat;
use crate::hints::{DecodeOptions, EncodeOptions};
use crate::meta::entries_view;
use vstd::multiset::Multiset;

verus! {

#[verifier::external_type_specification]
#[verifier::external_body]
pub struct ExRXingResult(rxing::RXingResult);

#[verifier::external_type_specification]
#[verifier::external_body]
pub struct ExBitMatrix(rxing::common::BitMatrix);

#[verifier::external_type_specification]
#[verifier::external_body]
pub struct ExDynamicImage(image::DynamicImage);

#[verifier::external_type_specification]
#[verifier::external_body]
pub struct ExEngineDecodeHints(rxing::DecodeHints);

#[verifier::external_type_specification]
#[verifier::external_body]
pub struct ExEngineEncodeHints(rxing::EncodeHints);

/// The text carried by an engine result.
pub uninterp spec fn result_text(r: rxing::RXingResult) -> Seq<char>;

/// The raw bytes carried by an engine result.
pub uninterp spec fn result_raw_bytes(r: rxing::RXingResult) -> Seq<u8>;

/// The bit count carried by an engine result.
pub uninterp spec fn result_num_bits(r: rxing::RXingResult) -> nat;

/// The detection points carried by an engine result, in detection order,
/// each coordinate as its bit pattern.
pub uninterp spec fn result_points(r: rxing::RXingResult) -> Seq<(u32, u32)>;

/// The display name of the format tag carried by an engine result.
pub uninterp spec fn result_format_name(r: rxing::RXingResult) -> Seq<char>;

/// The metadata entries carried by an engine result, each stringified, as a
/// multiset: the engine's dictionary has no entry order.
pub uninterp spec fn result_metadata(r: rxing::RXingResult) -> Multiset<(Seq<char>, Seq<char>)>;

/// The timestamp carried by an engine result.
pub uninterp spec fn result_timestamp(r: rxing::RXingResult) -> nat;

/// The dimensions (width, height) of an engine bit matrix.
pub uninterp spec fn matrix_dims(m: rxing::common::BitMatrix) -> (nat, nat);

/// The cells of an engine bit matrix, addressed (x, y).
pub uninterp spec fn matrix_bits(m: rxing::common::BitMatrix) -> Map<(int, int), bool>;

/// Whether the image codec can parse the given bytes: parsing is a function
/// of the bytes alone.
pub uninterp spec fn image_parses(bytes: Seq<u8>) -> bool;

/// The codec's diagnostic when it cannot parse the given bytes.
pub uninterp spec fn image_parse_error(bytes: Seq<u8>) -> Seq<char>;

/// What the engine's writer produces for given text, format, canvas size
/// and hints: encoding is a function of its arguments alone. On success,
/// the matrix dimensions and cells; on refusal, the engine's diagnostic.
pub uninterp spec fn engine_encode_result(
    data: Seq<char>,
    format: BarcodeFormat,
    width: i32,
    height: i32,
    hints: crate::hints::EncodeOptionsView,
) -> Result<(nat, nat, Map<(int, int), bool>), Seq<char>>;

/// Relies on rxing's DecodeHints struct: moves each typed field into the
/// engine's hints, mapping each catalog member through the engine's format
/// parser via its canonical name.
#[verifier::external_body]
fn to_engine_decode_hints(h: &DecodeOptions) -> rxing::DecodeHints {
    let mut eh = rxing::DecodeHints::default();
    eh.TryHarder = h.try_harder;
    eh.PureBarcode = h.pure_barcode;
    eh.AlsoInverted = h.also_inverted;
    eh.CharacterSet = h.character_set.clone();
    eh.PossibleFormats = h.possible_formats.as_ref().map(
        |v| v.iter().map(|f| rxing::BarcodeFormat::from(f.name())).collect(),
    );
    eh
}

/// Relies on rxing's EncodeHints struct: moves each typed field into the
/// engine's hints; the engine keeps margin and version as strings.
#[verifier::external_body]
fn to_engine_encode_hints(h: &EncodeOptions) -> rxing::EncodeHints {
    let mut eh = rxing::EncodeHints::default();
    eh.ErrorCorrection = h.error_correction.clone();
    eh.CharacterSet = h.character_set.clone();
    eh.Margin = h.margin.map(|v| format!("{}", v));
    eh.QrVersion = h.qr_version.map(|v| format!("{}", v));
    eh
}

/// Relies on rxing's Luma8LuminanceSource, HybridBinarizer, BinaryBitmap and
/// MultiFormatReader: wires the luminance buffer through adaptive
/// binarization and multi-format dispatch. The engine decides the outcome;
/// nothing is promised of it.
#[verifier::external_body]
pub(crate) fn engine_decode_luma(
    pixels: Vec<u8>,
    width: u32,
    height: u32,
    hints: &DecodeOptions,
) -> Result<rxing::RXingResult, String>
    requires
        crate::dims_match(pixels@.len(), width as nat, height as nat),
{
    let source = match rxing::Luma8LuminanceSource::new(pixels, width, height) {
        Ok(s) => s,
        Err(e) => return Err(format!("{:?}", e)),
    };
    let mut bitmap = rxing::BinaryBitmap::new(rxing::common::HybridBinarizer::new(source));
    let mut reader = rxing::MultiFormatReader::default();
    rxing::Reader::decode_with_hints(&mut reader, &mut bitmap, &to_engine_decode_hints(hints))
        .map_err(|e| format!("{:?}", e))
}

/// Relies on rxing's BufferedImageLuminanceSource, HybridBinarizer,
/// BinaryBitmap and MultiFormatReader: the same pipeline over a decoded
/// image, with the luminance projection done by the engine.
#[verifier::external_body]
pub(crate) fn engine_decode_image(
    img: image::DynamicImage,
    hints: &DecodeOptions,
) -> Result<rxing::RXingResult, String> {
    let source = rxing::BufferedImageLuminanceSource::new(img);
    let mut bitmap = rxing::BinaryBitmap::new(rxing::common::HybridBinarizer::new(source));
    let mut reader = rxing::MultiFormatReader::default();
    rxing::Reader::decode_with_hints(&mut reader, &mut bitmap, &to_engine_decode_hints(hints))
        .map_err(|e| format!("{:?}", e))
}

/// Relies on image::load_from_memory: parses an image container from bytes,
/// deterministically in the bytes, succeeding exactly when the codec
/// accepts them.
#[verifier::external_body]
pub(crate) fn load_image(bytes: &[u8]) -> (r: Result<image::DynamicImage, String>)
    ensures
        r is Ok <==> image_parses(bytes@),
        (match r {
            Ok(_) => true,
            Err(m) => m@ == image_parse_error(bytes@),
        }),
{
    image::load_from_memory(bytes).map_err(|e| format!("{:?}", e))
}

/// Relies on rxing's MultiFormatWriter: encodes text into a bit matrix. The
/// format is handed over by its canonical name, which the engine's format
/// parser accepts for every catalog member. The writers compute from their
/// arguments alone, so the whole outcome carries the name
/// `engine_encode_result`.
#[verifier::external_body]
pub(crate) fn engine_encode(
    data: &str,
    format: &BarcodeFormat,
    width: i32,
    height: i32,
    hints: &EncodeOptions,
) -> (r: Result<rxing::common::BitMatrix, String>)
    ensures
        (match r {
            Ok(m) => engine_encode_result(data@, *format, width, height, hints@) matches Ok(model)
                && matrix_dims(m).0 == model.0 && matrix_dims(m).1 == model.1 && matrix_bits(m)
                == model.2,
            Err(e) => engine_encode_result(data@, *format, width, height, hints@) matches Err(me)
                && e@ == me,
        }),
{
    let f = rxing::BarcodeFormat::from(format.name());
    let eh = to_engine_encode_hints(hints);
    let writer = rxing::MultiFormatWriter;
    rxing::Writer::encode_with_hints(&writer, data, &f, width, height, &eh)
        .map_err(|e| format!("{:?}", e))
}

/// Relies on RXingResult::getText.
#[verifier::external_body]
pub(crate) fn engine_result_text(r: &rxing::RXingResult) -> (t: String)
    ensures
        t@ == result_text(*r),
{
    r.getText().to_owned()
}

/// Relies on RXingResult::getRawBytes.
#[verifier::external_body]
pub(crate) fn engine_result_raw_bytes(r: &rxing::RXingResult) -> (b: Vec<u8>)
    ensures
        b@ == result_raw_bytes(*r),
{
    r.getRawBytes().to_vec()
}

/// Relies on RXingResult::getNumBits.
#[verifier::external_body]
pub(crate) fn engine_result_num_bits(r: &rxing::RXingResult) -> (n: usize)
    ensures
        n as nat == result_num_bits(*r),
{
    r.getNumBits()
}

/// Relies on RXingResult::getPoints and f32::to_bits: each coordinate is
/// carried across as its exact bit pattern, in the engine's detection order.
#[verifier::external_body]
pub(crate) fn engine_result_points(r: &rxing::RXingResult) -> (p: Vec<(u32, u32)>)
    ensures
        p@ == result_points(*r),
{
    r.getPoints().iter().map(|q| (q.x.to_bits(), q.y.to_bits())).collect()
}

/// Relies on RXingResult::getBarcodeFormat and the Display impl of the
/// engine's format tag, which writes one fixed name per tag.
#[verifier::external_body]
pub(crate) fn engine_result_format_name(r: &rxing::RXingResult) -> (s: String)
    ensures
        s@ == result_format_name(*r),
{
    format!("{}", r.getBarcodeFormat())
}

/// Relies on RXingResult::getRXingResultMetadata and the Debug impls of the
/// engine's metadata key and value enums: each entry is stringified in the
/// debug form. The dictionary is walked in hash order, so only the multiset
/// of entries is stated.
#[verifier::external_body]
pub(crate) fn engine_result_metadata(r: &rxing::RXingResult) -> (m: Vec<(String, String)>)
    ensures
        entries_view(m@).to_multiset() == result_metadata(*r),
{
    r.getRXingResultMetadata()
        .iter()
        .map(|(k, v)| (format!("{:?}", k), format!("{:?}", v)))
        .collect()
}

/// Relies on RXingResult::getTimestamp.
#[verifier::external_body]
pub(crate) fn engine_result_timestamp(r: &rxing::RXingResult) -> (t: u128)
    ensures
        t as nat == result_timestamp(*r),
{
    r.getTimestamp()
}

/// Relies on BitMatrix::getWidth.
#[verifier::external_body]
pub(crate) fn engine_matrix_width(m: &rxing::common::BitMatrix) -> (w: u32)
    ensures
        w as nat == matrix_dims(*m).0,
{
    m.getWidth()
}

/// Relies on BitMatrix::getHeight.
#[verifier::external_body]
pub(crate) fn engine_matrix_height(m: &rxing::common::BitMatrix) -> (h: u32)
    ensures
        h as nat == matrix_dims(*m).1,
{
    m.getHeight()
}

/// Relies on BitMatrix::get, which reads the cell at (x, y); outside the
/// matrix it returns false rather than failing.
#[verifier::external_body]
pub(crate) fn engine_matrix_get(m: &rxing::common::BitMatrix, x: u32, y: u32) -> (b: bool)
    ensures
        (x as nat) < matrix_dims(*m).0 && (y as nat) < matrix_dims(*m).1 ==> b == matrix_bits(
            *m,
        )[(x as int, y as int)],
{
    m.get(x, y)
}

} // verus!
