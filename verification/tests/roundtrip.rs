use rxing_bridge::decode::decode_from_pixels;
use rxing_bridge::encode::encode;
use rxing_bridge::hints::HintValue;
use rxing_bridge::matrix::MatrixView;

fn no_opts() -> Vec<(String, HintValue)> {
    Vec::new()
}

/// Rasterizes an encoded matrix into a grayscale buffer: set cells are
/// black, clear cells are white.
fn matrix_to_luma(matrix: &MatrixView) -> (Vec<u8>, u32, u32) {
    let w = matrix.width();
    let h = matrix.height();
    let mut buf = Vec::with_capacity((w as usize) * (h as usize));
    for row in matrix.data() {
        for cell in row {
            buf.push(if cell { 0u8 } else { 255u8 });
        }
    }
    (buf, w, h)
}

#[test]
fn qr_code_round_trips() {
    let matrix = encode("hello world", "QR_CODE", 0, 0, &no_opts()).expect("qr encodes");
    let (buf, w, h) = matrix_to_luma(&matrix);
    let result = decode_from_pixels(&buf, w, h, &no_opts()).expect("qr decodes");
    assert_eq!(result.text, "hello world");
}

#[test]
fn code_128_round_trips() {
    let matrix = encode("RX-128-OK", "CODE_128", 0, 0, &no_opts()).expect("code 128 encodes");
    let (buf, w, h) = matrix_to_luma(&matrix);
    let result = decode_from_pixels(&buf, w, h, &no_opts()).expect("code 128 decodes");
    assert_eq!(result.text, "RX-128-OK");
}

#[test]
fn unknown_hint_key_leaves_outcome_unchanged() {
    let matrix = encode("same outcome", "QR_CODE", 0, 0, &no_opts()).expect("qr encodes");
    let (buf, w, h) = matrix_to_luma(&matrix);
    let plain = decode_from_pixels(&buf, w, h, &no_opts()).expect("decodes without the key");
    let opts = vec![("NOT_A_REAL_HINT".to_string(), HintValue::Int(1))];
    let with_key = decode_from_pixels(&buf, w, h, &opts).expect("decodes with the key");
    assert_eq!(plain.text, with_key.text);
    assert_eq!(plain.barcode_format, with_key.barcode_format);
    assert_eq!(plain.raw_bytes, with_key.raw_bytes);
    assert_eq!(plain.result_metadata, with_key.result_metadata);
}

#[test]
fn possible_formats_restrict_the_search() {
    let matrix = encode("restricted", "QR_CODE", 0, 0, &no_opts()).expect("qr encodes");
    let (buf, w, h) = matrix_to_luma(&matrix);
    let opts = vec![(
        "POSSIBLE_FORMATS".to_string(),
        HintValue::TextList(vec!["EAN_13".to_string()]),
    )];
    let err = decode_from_pixels(&buf, w, h, &opts)
        .expect_err("a qr image must not decode as ean-13");
    assert_eq!(err.kind(), "decode");
}

#[test]
fn possible_formats_allowing_the_format_still_decodes() {
    let matrix = encode("allowed", "QR_CODE", 0, 0, &no_opts()).expect("qr encodes");
    let (buf, w, h) = matrix_to_luma(&matrix);
    let opts = vec![(
        "POSSIBLE_FORMATS".to_string(),
        HintValue::TextList(vec!["QR_CODE".to_string()]),
    )];
    let result = decode_from_pixels(&buf, w, h, &opts).expect("qr decodes when allowed");
    assert_eq!(result.text, "allowed");
}

#[test]
fn metadata_is_strings_sorted_and_stable() {
    let matrix = encode("stable meta", "QR_CODE", 0, 0, &no_opts()).expect("qr encodes");
    let (buf, w, h) = matrix_to_luma(&matrix);
    let first = decode_from_pixels(&buf, w, h, &no_opts()).expect("first decode");
    let second = decode_from_pixels(&buf, w, h, &no_opts()).expect("second decode");
    let md1 = first.result_metadata.expect("metadata present");
    let md2 = second.result_metadata.expect("metadata present");
    assert_eq!(md1, md2);
    for window in md1.windows(2) {
        assert!(window[0].0 <= window[1].0);
    }
    assert_eq!(first.text, second.text);
    assert_eq!(first.num_bits, second.num_bits);
}

#[test]
fn decoded_result_carries_engine_fields() {
    let matrix = encode("fields", "QR_CODE", 0, 0, &no_opts()).expect("qr encodes");
    let (buf, w, h) = matrix_to_luma(&matrix);
    let result = decode_from_pixels(&buf, w, h, &no_opts()).expect("decodes");
    assert_eq!(result.barcode_format, "qrcode");
    assert!(result.raw_bytes.expect("raw bytes present").len() > 0);
    assert!(result.result_points.expect("points present").len() > 0);
    assert!(result.num_bits > 0);
}

#[test]
fn image_bytes_round_trips_through_the_codec() {
    let matrix = encode("png round trip", "QR_CODE", 0, 0, &no_opts()).expect("qr encodes");
    let (buf, w, h) = matrix_to_luma(&matrix);
    let img = image::GrayImage::from_raw(w, h, buf).expect("valid dimensions");
    let mut png: Vec<u8> = Vec::new();
    img.write_to(&mut std::io::Cursor::new(&mut png), image::ImageFormat::Png)
        .expect("png encodes");
    let result = rxing_bridge::decode::decode_from_image_bytes(&png, &no_opts())
        .expect("the codec materializes pixels and the engine decodes them");
    assert_eq!(result.text, "png round trip");

    let by_path = rxing_bridge::decode::decode_from_path_data(Some(&png), "in-memory.png", &no_opts())
        .expect("present file data decodes");
    assert_eq!(by_path.text, "png round trip");
}
