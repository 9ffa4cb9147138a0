use rxing_bridge::decode::{decode_from_path_data, decode_from_pixels, decode_from_image_bytes};
use rxing_bridge::encode::encode;
use rxing_bridge::error::Error;
use rxing_bridge::format::BarcodeFormat;
use rxing_bridge::hints::{decode_hints_from_options, encode_hints_from_options, HintValue};

fn no_opts() -> Vec<(String, HintValue)> {
    Vec::new()
}

#[test]
fn format_names_round_trip() {
    for name in BarcodeFormat::catalog_names() {
        let parsed = BarcodeFormat::parse(&name).expect("catalog name must parse");
        assert_eq!(parsed.name(), name.as_str());
        let lower = name.to_lowercase();
        let parsed_lower = BarcodeFormat::parse(&lower).expect("lowercase must parse");
        assert_eq!(parsed_lower.name(), name.as_str());
    }
}

#[test]
fn format_catalog_contents() {
    let names = BarcodeFormat::catalog_names();
    assert_eq!(names.len(), 17);
    assert!(names.iter().any(|n| n == "QR_CODE"));
    assert!(names.iter().any(|n| n == "DATA_MATRIX"));
    assert!(names.iter().any(|n| n == "UPC_EAN_EXTENSION"));
    assert_eq!(names[0], "AZTEC");
}

#[test]
fn format_parse_unknown_fails() {
    assert!(BarcodeFormat::parse("NOT_A_FORMAT").is_none());
    assert!(BarcodeFormat::parse("").is_none());
    assert!(BarcodeFormat::parse("QRCODE").is_none());
}

#[test]
fn decode_hints_defaults_when_empty() {
    let (hints, warnings) = decode_hints_from_options(&no_opts()).expect("empty options");
    assert!(hints.try_harder.is_none());
    assert!(hints.pure_barcode.is_none());
    assert!(hints.possible_formats.is_none());
    assert!(hints.character_set.is_none());
    assert!(hints.also_inverted.is_none());
    assert!(warnings.is_empty());
    let unset = rxing_bridge::hints::DecodeOptions::unset();
    assert!(unset.try_harder.is_none() && unset.possible_formats.is_none());
    let unset_enc = rxing_bridge::hints::EncodeOptions::unset();
    assert!(unset_enc.margin.is_none() && unset_enc.error_correction.is_none());
}

#[test]
fn decode_hints_recognize_keys_case_insensitively() {
    let opts = vec![
        ("try_harder".to_string(), HintValue::Bool(true)),
        ("Also_Inverted".to_string(), HintValue::Bool(false)),
        ("CHARACTER_SET".to_string(), HintValue::Text("UTF-8".to_string())),
    ];
    let (hints, warnings) = decode_hints_from_options(&opts).expect("valid options");
    assert_eq!(hints.try_harder, Some(true));
    assert_eq!(hints.also_inverted, Some(false));
    assert_eq!(hints.character_set.as_deref(), Some("UTF-8"));
    assert!(warnings.is_empty());
}

#[test]
fn decode_hints_unknown_key_is_warning_not_error() {
    let opts = vec![("NOT_A_REAL_HINT".to_string(), HintValue::Int(1))];
    let (hints, warnings) = decode_hints_from_options(&opts).expect("unknown key must not fail");
    assert!(hints.try_harder.is_none());
    assert_eq!(warnings, vec!["NOT_A_REAL_HINT".to_string()]);
}

#[test]
fn decode_hints_wrong_type_is_validation_error() {
    let opts = vec![("TRY_HARDER".to_string(), HintValue::Int(1))];
    let err = decode_hints_from_options(&opts).expect_err("wrong type must fail");
    match err {
        Error::Validation(m) => assert!(m.contains("TRY_HARDER")),
        _ => panic!("expected a validation error"),
    }
}

#[test]
fn decode_hints_possible_formats_collapse_duplicates() {
    let opts = vec![(
        "POSSIBLE_FORMATS".to_string(),
        HintValue::TextList(vec![
            "qr_code".to_string(),
            "QR_CODE".to_string(),
            "ean_13".to_string(),
        ]),
    )];
    let (hints, _) = decode_hints_from_options(&opts).expect("valid formats");
    let formats = hints.possible_formats.expect("set");
    assert_eq!(formats, vec![BarcodeFormat::QrCode, BarcodeFormat::Ean13]);
}

#[test]
fn decode_hints_empty_format_list_is_unset() {
    let opts = vec![("POSSIBLE_FORMATS".to_string(), HintValue::TextList(vec![]))];
    let (hints, _) = decode_hints_from_options(&opts).expect("empty list is fine");
    assert!(hints.possible_formats.is_none());
}

#[test]
fn decode_hints_unknown_format_is_validation_error() {
    let opts = vec![(
        "POSSIBLE_FORMATS".to_string(),
        HintValue::TextList(vec!["NOT_A_FORMAT".to_string()]),
    )];
    let err = decode_hints_from_options(&opts).expect_err("unknown format must fail");
    match err {
        Error::Validation(m) => assert!(m.contains("NOT_A_FORMAT")),
        _ => panic!("expected a validation error"),
    }
}

#[test]
fn decode_hints_possible_formats_must_be_list() {
    let opts = vec![("POSSIBLE_FORMATS".to_string(), HintValue::Text("QR_CODE".to_string()))];
    let err = decode_hints_from_options(&opts).expect_err("non-list must fail");
    match err {
        Error::Validation(m) => {
            assert_eq!(m, "POSSIBLE_FORMATS value must be a list of strings");
        },
        _ => panic!("expected a validation error"),
    }
}

#[test]
fn encode_hints_recognize_keys() {
    let opts = vec![
        ("error_correction".to_string(), HintValue::Text("H".to_string())),
        ("MARGIN".to_string(), HintValue::Int(4)),
        ("qr_version".to_string(), HintValue::Int(5)),
        ("SOMETHING_ELSE".to_string(), HintValue::Bool(true)),
    ];
    let (hints, warnings) = encode_hints_from_options(&opts).expect("valid options");
    assert_eq!(hints.error_correction.as_deref(), Some("H"));
    assert_eq!(hints.margin, Some(4));
    assert_eq!(hints.qr_version, Some(5));
    assert_eq!(warnings, vec!["SOMETHING_ELSE".to_string()]);
}

#[test]
fn encode_hints_wrong_type_is_validation_error() {
    let opts = vec![("MARGIN".to_string(), HintValue::Text("4".to_string()))];
    let err = encode_hints_from_options(&opts).expect_err("wrong type must fail");
    match err {
        Error::Validation(m) => assert!(m.contains("MARGIN")),
        _ => panic!("expected a validation error"),
    }
}

#[test]
fn decode_from_pixels_rejects_length_mismatch() {
    let buf = vec![0u8; 99];
    let err = decode_from_pixels(&buf, 10, 10, &no_opts()).expect_err("mismatch must fail");
    match &err {
        Error::Validation(m) => {
            assert_eq!(m.as_str(), "Pixel data length does not match width * height.");
        },
        _ => panic!("expected a validation error"),
    }
    assert_eq!(err.kind(), "validation");
}

#[test]
fn decode_from_pixels_blank_image_is_decode_error() {
    let buf = vec![255u8; 100 * 100];
    let err = decode_from_pixels(&buf, 100, 100, &no_opts()).expect_err("blank must miss");
    assert_eq!(err.kind(), "decode");
    assert!(err.message().starts_with("RXing decoding failed: "));
}

#[test]
fn decode_from_image_bytes_garbage_is_io_error() {
    let err = decode_from_image_bytes(&[1, 2, 3, 4, 5], &no_opts()).expect_err("not an image");
    assert_eq!(err.kind(), "io");
    assert!(err.message().starts_with("Failed to load image from bytes: "));
}

#[test]
fn decode_failures_on_file_data_carry_the_path() {
    let garbage = vec![9u8; 16];
    let io_err = decode_from_path_data(Some(&garbage), "bad/garbage.bin", &no_opts())
        .expect_err("garbage bytes are not an image");
    assert_eq!(io_err.kind(), "io");
    assert!(io_err
        .message()
        .starts_with("Failed to open or decode image file bad/garbage.bin: "));

    let blank = image::GrayImage::from_raw(64, 64, vec![255u8; 64 * 64]).expect("image");
    let mut png: Vec<u8> = Vec::new();
    blank
        .write_to(&mut std::io::Cursor::new(&mut png), image::ImageFormat::Png)
        .expect("png encodes");
    let decode_err = decode_from_path_data(Some(&png), "blank/empty.png", &no_opts())
        .expect_err("a blank image decodes nothing");
    assert_eq!(decode_err.kind(), "decode");
    assert!(decode_err
        .message()
        .starts_with("RXing decoding failed for file blank/empty.png: "));
}

#[test]
fn decode_from_missing_path_is_not_found() {
    let err = decode_from_path_data(None, "/no/such/file.png", &no_opts())
        .expect_err("missing file must fail");
    match &err {
        Error::NotFound(m) => assert_eq!(m, "File not found: /no/such/file.png"),
        _ => panic!("expected a not-found error"),
    }
    assert_eq!(err.kind(), "not_found");
    assert_eq!(err.message(), "File not found: /no/such/file.png");
}

#[test]
fn encode_unknown_format_is_validation_error() {
    let err =
        encode("hello", "NOT_A_FORMAT", 100, 100, &no_opts()).expect_err("unknown format");
    match err {
        Error::Validation(m) => assert_eq!(m, "unknown barcode format: NOT_A_FORMAT"),
        _ => panic!("expected a validation error"),
    }
}

#[test]
fn encode_capacity_overflow_is_encode_error() {
    let data = "A".repeat(20000);
    let err = encode(&data, "EAN_13", 100, 100, &no_opts()).expect_err("over capacity");
    assert_eq!(err.kind(), "encode");
    assert!(err
        .message()
        .starts_with("encoding failed for format EAN_13 with data length 20000: "));
}

#[test]
fn encode_produces_matrix_view() {
    let matrix = encode("hello world", "QR_CODE", 0, 0, &no_opts()).expect("qr encodes");
    let w = matrix.width();
    let h = matrix.height();
    assert!(w > 0 && h > 0);
    let data = matrix.data();
    assert_eq!(data.len(), h as usize);
    for (y, row) in data.iter().enumerate() {
        assert_eq!(row.len(), w as usize);
        for (x, cell) in row.iter().enumerate() {
            assert_eq!(*cell, matrix.get(x as u32, y as u32));
        }
    }
    let mut any_set = false;
    for row in &data {
        if row.iter().any(|c| *c) {
            any_set = true;
        }
    }
    assert!(any_set);
}

#[test]
fn metadata_sort_is_by_key_then_value() {
    let entries = vec![
        ("ORIENTATION".to_string(), "90".to_string()),
        ("ERROR_CORRECTION_LEVEL".to_string(), "H".to_string()),
        ("SYMBOLOGY_IDENTIFIER".to_string(), "]Q1".to_string()),
        ("ERROR_CORRECTION_LEVEL".to_string(), "A".to_string()),
    ];
    let sorted = rxing_bridge::meta::sort_metadata(entries);
    assert_eq!(
        sorted,
        vec![
            ("ERROR_CORRECTION_LEVEL".to_string(), "A".to_string()),
            ("ERROR_CORRECTION_LEVEL".to_string(), "H".to_string()),
            ("ORIENTATION".to_string(), "90".to_string()),
            ("SYMBOLOGY_IDENTIFIER".to_string(), "]Q1".to_string()),
        ]
    );
}
