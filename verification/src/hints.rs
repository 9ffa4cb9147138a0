//! The hint translator: converts a dynamic, string-keyed option set into
//! typed decoding or encoding hints. Option names are case-insensitive;
//! unknown names are ignored with a diagnostic; wrongly typed values are a
//! hard validation failure naming the offending key.

use vstd::prelude::*;
use crate::error::Error;
use crate::format::BarcodeFormat;
use crate::text::upper;
use crate::text::eq_upper;

verus! {

/// One dynamically typed option value, as a loosely typed caller supplies it.
#[derive(Debug)]
pub enum HintValue {
    Bool(bool),
    Int(i64),
    Text(String),
    TextList(Vec<String>),
}

/// Typed decoding hints. Every field distinguishes "unset" from an explicit
/// value: unset means the engine chooses its own default.
#[derive(Debug)]
pub struct DecodeOptions {
    pub try_harder: Option<bool>,
    pub pure_barcode: Option<bool>,
    pub possible_formats: Option<Vec<BarcodeFormat>>,
    pub character_set: Option<String>,
    pub also_inverted: Option<bool>,
}

/// The mathematical shape of `DecodeOptions`.
pub struct DecodeOptionsView {
    pub try_harder: Option<bool>,
    pub pure_barcode: Option<bool>,
    pub possible_formats: Option<Seq<BarcodeFormat>>,
    pub character_set: Option<Seq<char>>,
    pub also_inverted: Option<bool>,
}

impl View for DecodeOptions {
    type V = DecodeOptionsView;

    open spec fn view(&self) -> DecodeOptionsView {
        DecodeOptionsView {
            try_harder: self.try_harder,
            pure_barcode: self.pure_barcode,
            possible_formats: match self.possible_formats {
                Some(v) => Some(v@),
                None => None,
            },
            character_set: match self.character_set {
                Some(s) => Some(s@),
                None => None,
            },
            also_inverted: self.also_inverted,
        }
    }
}

impl DecodeOptionsView {
    /// All fields unset: the engine chooses every default.
    pub open spec fn unset() -> DecodeOptionsView {
        DecodeOptionsView {
            try_harder: None,
            pure_barcode: None,
            possible_formats: None,
            character_set: None,
            also_inverted: None,
        }
    }
}

impl DecodeOptions {
    /// All-defaults hints: every field unset.
    pub fn unset() -> (r: DecodeOptions)
        ensures
            r@ == DecodeOptionsView::unset(),
    {
        DecodeOptions {
            try_harder: None,
            pure_barcode: None,
            possible_formats: None,
            character_set: None,
            also_inverted: None,
        }
    }
}

/// Typed encoding hints, with the same unset-versus-default distinction.
#[derive(Debug)]
pub struct EncodeOptions {
    pub error_correction: Option<String>,
    pub character_set: Option<String>,
    pub margin: Option<i64>,
    pub qr_version: Option<i64>,
}

/// The mathematical shape of `EncodeOptions`.
pub struct EncodeOptionsView {
    pub error_correction: Option<Seq<char>>,
    pub character_set: Option<Seq<char>>,
    pub margin: Option<i64>,
    pub qr_version: Option<i64>,
}

impl View for EncodeOptions {
    type V = EncodeOptionsView;

    open spec fn view(&self) -> EncodeOptionsView {
        EncodeOptionsView {
            error_correction: match self.error_correction {
                Some(s) => Some(s@),
                None => None,
            },
            character_set: match self.character_set {
                Some(s) => Some(s@),
                None => None,
            },
            margin: self.margin,
            qr_version: self.qr_version,
        }
    }
}

impl EncodeOptionsView {
    /// All fields unset: the engine chooses every default.
    pub open spec fn unset() -> EncodeOptionsView {
        EncodeOptionsView {
            error_correction: None,
            character_set: None,
            margin: None,
            qr_version: None,
        }
    }
}

impl EncodeOptions {
    /// All-defaults hints: every field unset.
    pub fn unset() -> (r: EncodeOptions)
        ensures
            r@ == EncodeOptionsView::unset(),
    {
        EncodeOptions {
            error_correction: None,
            character_set: None,
            margin: None,
            qr_version: None,
        }
    }
}

/// Whether an uppercased key is one of the recognized decode option names.
pub open spec fn decode_key_recognized(u: Seq<char>) -> bool {
    ||| u == "TRY_HARDER"@
    ||| u == "PURE_BARCODE"@
    ||| u == "POSSIBLE_FORMATS"@
    ||| u == "CHARACTER_SET"@
    ||| u == "ALSO_INVERTED"@
}

/// Whether an uppercased key is one of the recognized encode option names.
pub open spec fn encode_key_recognized(u: Seq<char>) -> bool {
    ||| u == "ERROR_CORRECTION"@
    ||| u == "CHARACTER_SET"@
    ||| u == "MARGIN"@
    ||| u == "QR_VERSION"@
}

/// What parsing a list of format names yields: the catalog members in first
/// occurrence order with duplicates collapsed, or the diagnostic for the
/// first name outside the catalog.
pub open spec fn spec_parse_formats(names: Seq<String>, acc: Seq<BarcodeFormat>) -> Result<
    Seq<BarcodeFormat>,
    Seq<char>,
>
    decreases names.len(),
{
    if names.len() == 0 {
        Ok(acc)
    } else {
        match BarcodeFormat::spec_parse(names[0]@) {
            Some(f) => spec_parse_formats(
                names.drop_first(),
                if acc.contains(f) {
                    acc
                } else {
                    acc.push(f)
                },
            ),
            None => Err("unknown barcode format: "@ + names[0]@),
        }
    }
}

/// The effect of one recognized decode option on the hints, or the
/// diagnostic when its value has the wrong type. Unrecognized keys leave the
/// hints unchanged.
pub open spec fn spec_apply_decode_option(
    h: DecodeOptionsView,
    key: Seq<char>,
    val: HintValue,
) -> Result<DecodeOptionsView, Seq<char>> {
    let u = upper(key);
    if u == "TRY_HARDER"@ {
        match val {
            HintValue::Bool(b) => Ok(
                DecodeOptionsView {
                    try_harder: Some(b),
                    pure_barcode: h.pure_barcode,
                    possible_formats: h.possible_formats,
                    character_set: h.character_set,
                    also_inverted: h.also_inverted,
                },
            ),
            _ => Err("TRY_HARDER expects a boolean value"@),
        }
    } else if u == "PURE_BARCODE"@ {
        match val {
            HintValue::Bool(b) => Ok(
                DecodeOptionsView {
                    try_harder: h.try_harder,
                    pure_barcode: Some(b),
                    possible_formats: h.possible_formats,
                    character_set: h.character_set,
                    also_inverted: h.also_inverted,
                },
            ),
            _ => Err("PURE_BARCODE expects a boolean value"@),
        }
    } else if u == "POSSIBLE_FORMATS"@ {
        match val {
            HintValue::TextList(names) => match spec_parse_formats(names@, Seq::empty()) {
                Ok(fs) => Ok(
                    if fs.len() == 0 {
                        h
                    } else {
                        DecodeOptionsView {
                            try_harder: h.try_harder,
                            pure_barcode: h.pure_barcode,
                            possible_formats: Some(fs),
                            character_set: h.character_set,
                            also_inverted: h.also_inverted,
                        }
                    },
                ),
                Err(m) => Err(m),
            },
            _ => Err("POSSIBLE_FORMATS value must be a list of strings"@),
        }
    } else if u == "CHARACTER_SET"@ {
        match val {
            HintValue::Text(s) => Ok(
                DecodeOptionsView {
                    try_harder: h.try_harder,
                    pure_barcode: h.pure_barcode,
                    possible_formats: h.possible_formats,
                    character_set: Some(s@),
                    also_inverted: h.also_inverted,
                },
            ),
            _ => Err("CHARACTER_SET expects a string value"@),
        }
    } else if u == "ALSO_INVERTED"@ {
        match val {
            HintValue::Bool(b) => Ok(
                DecodeOptionsView {
                    try_harder: h.try_harder,
                    pure_barcode: h.pure_barcode,
                    possible_formats: h.possible_formats,
                    character_set: h.character_set,
                    also_inverted: Some(b),
                },
            ),
            _ => Err("ALSO_INVERTED expects a boolean value"@),
        }
    } else {
        Ok(h)
    }
}

/// Folds the whole option list over the hints, stopping at the first
/// wrongly typed value.
pub open spec fn spec_decode_hints_fold(
    opts: Seq<(String, HintValue)>,
    h: DecodeOptionsView,
) -> Result<DecodeOptionsView, Seq<char>>
    decreases opts.len(),
{
    if opts.len() == 0 {
        Ok(h)
    } else {
        match spec_apply_decode_option(h, opts[0].0@, opts[0].1) {
            Ok(h2) => spec_decode_hints_fold(opts.drop_first(), h2),
            Err(m) => Err(m),
        }
    }
}

/// The typed decode hints an option list denotes, or the diagnostic for its
/// first wrongly typed value.
pub open spec fn spec_decode_hints(opts: Seq<(String, HintValue)>) -> Result<
    DecodeOptionsView,
    Seq<char>,
> {
    spec_decode_hints_fold(opts, DecodeOptionsView::unset())
}

/// The unrecognized decode option keys, in order, kept as diagnostics.
pub open spec fn spec_decode_unknown_keys(opts: Seq<(String, HintValue)>) -> Seq<Seq<char>>
    decreases opts.len(),
{
    if opts.len() == 0 {
        Seq::empty()
    } else {
        let rest = spec_decode_unknown_keys(opts.drop_first());
        if decode_key_recognized(upper(opts[0].0@)) {
            rest
        } else {
            seq![opts[0].0@] + rest
        }
    }
}

/// The effect of one recognized encode option on the hints, or the
/// diagnostic when its value has the wrong type.
pub open spec fn spec_apply_encode_option(
    h: EncodeOptionsView,
    key: Seq<char>,
    val: HintValue,
) -> Result<EncodeOptionsView, Seq<char>> {
    let u = upper(key);
    if u == "ERROR_CORRECTION"@ {
        match val {
            HintValue::Text(s) => Ok(
                EncodeOptionsView {
                    error_correction: Some(s@),
                    character_set: h.character_set,
                    margin: h.margin,
                    qr_version: h.qr_version,
                },
            ),
            _ => Err("ERROR_CORRECTION expects a string value"@),
        }
    } else if u == "CHARACTER_SET"@ {
        match val {
            HintValue::Text(s) => Ok(
                EncodeOptionsView {
                    error_correction: h.error_correction,
                    character_set: Some(s@),
                    margin: h.margin,
                    qr_version: h.qr_version,
                },
            ),
            _ => Err("CHARACTER_SET expects a string value"@),
        }
    } else if u == "MARGIN"@ {
        match val {
            HintValue::Int(n) => Ok(
                EncodeOptionsView {
                    error_correction: h.error_correction,
                    character_set: h.character_set,
                    margin: Some(n),
                    qr_version: h.qr_version,
                },
            ),
            _ => Err("MARGIN expects an integer value"@),
        }
    } else if u == "QR_VERSION"@ {
        match val {
            HintValue::Int(n) => Ok(
                EncodeOptionsView {
                    error_correction: h.error_correction,
                    character_set: h.character_set,
                    margin: h.margin,
                    qr_version: Some(n),
                },
            ),
            _ => Err("QR_VERSION expects an integer value"@),
        }
    } else {
        Ok(h)
    }
}

/// Folds the whole option list over the encode hints.
pub open spec fn spec_encode_hints_fold(
    opts: Seq<(String, HintValue)>,
    h: EncodeOptionsView,
) -> Result<EncodeOptionsView, Seq<char>>
    decreases opts.len(),
{
    if opts.len() == 0 {
        Ok(h)
    } else {
        match spec_apply_encode_option(h, opts[0].0@, opts[0].1) {
            Ok(h2) => spec_encode_hints_fold(opts.drop_first(), h2),
            Err(m) => Err(m),
        }
    }
}

/// The typed encode hints an option list denotes, or the diagnostic for its
/// first wrongly typed value.
pub open spec fn spec_encode_hints(opts: Seq<(String, HintValue)>) -> Result<
    EncodeOptionsView,
    Seq<char>,
> {
    spec_encode_hints_fold(opts, EncodeOptionsView::unset())
}

/// The unrecognized encode option keys, in order, kept as diagnostics.
pub open spec fn spec_encode_unknown_keys(opts: Seq<(String, HintValue)>) -> Seq<Seq<char>>
    decreases opts.len(),
{
    if opts.len() == 0 {
        Seq::empty()
    } else {
        let rest = spec_encode_unknown_keys(opts.drop_first());
        if encode_key_recognized(upper(opts[0].0@)) {
            rest
        } else {
            seq![opts[0].0@] + rest
        }
    }
}

/// Whether a vector of formats already holds the given member.
fn contains_format(v: &Vec<BarcodeFormat>, f: BarcodeFormat) -> (r: bool)
    ensures
        r == v@.contains(f),
{
    let n = v.len();
    let mut i: usize = 0;
    while i < n
        invariant
            n == v@.len(),
            i <= n,
            forall|j: int| 0 <= j < i ==> v@[j] != f,
        decreases n - i,
    {
        if v[i] == f {
            return true;
        }
        i = i + 1;
    }
    false
}

/// Parses a list of format names into catalog members, collapsing
/// duplicates, failing on the first name outside the catalog.
fn parse_format_list(names: &Vec<String>) -> (r: Result<Vec<BarcodeFormat>, String>)
    ensures
        match r {
            Ok(v) => spec_parse_formats(names@, Seq::empty()) == Ok::<Seq<BarcodeFormat>, Seq<char>>(v@),
            Err(m) => spec_parse_formats(names@, Seq::empty()) == Err::<Seq<BarcodeFormat>, Seq<char>>(m@),
        },
{
    let mut acc: Vec<BarcodeFormat> = Vec::new();
    let n = names.len();
    let mut i: usize = 0;
    proof {
        assert(names@.skip(0) =~= names@);
    }
    while i < n
        invariant
            n == names@.len(),
            i <= n,
            spec_parse_formats(names@.skip(i as int), acc@) == spec_parse_formats(
                names@,
                Seq::empty(),
            ),
        decreases n - i,
    {
        proof {
            assert(names@.skip(i as int)[0] == names@[i as int]);
            assert(names@.skip(i as int).drop_first() =~= names@.skip(i as int + 1));
        }
        match BarcodeFormat::parse(names[i].as_str()) {
            Some(f) => {
                if !contains_format(&acc, f) {
                    acc.push(f);
                }
            },
            None => {
                let m = String::from_str("unknown barcode format: ").concat(names[i].as_str());
                return Err(m);
            },
        }
        i = i + 1;
    }
    Ok(acc)
}

/// Translates a dynamic option list into typed decode hints. Unrecognized
/// keys never fail: they are returned as diagnostics beside the hints.
/// A wrongly typed value for a recognized key is a validation failure
/// naming that key.
pub fn decode_hints_from_options(opts: &Vec<(String, HintValue)>) -> (r: Result<
    (DecodeOptions, Vec<String>),
    Error,
>)
    ensures
        match r {
            Ok(hw) => spec_decode_hints(opts@) == Ok::<DecodeOptionsView, Seq<char>>(hw.0@)
                && hw.1.deep_view() == spec_decode_unknown_keys(opts@),
            Err(e) => {
                &&& spec_decode_hints(opts@) matches Err(m)
                &&& e matches Error::Validation(t) && t@ == m
            },
        },
{
    let mut hints = DecodeOptions::unset();
    let mut warnings: Vec<String> = Vec::new();
    let n = opts.len();
    let mut i: usize = 0;
    proof {
        assert(opts@.skip(0) =~= opts@);
    }
    while i < n
        invariant
            n == opts@.len(),
            i <= n,
            spec_decode_hints_fold(opts@.skip(i as int), hints@) == spec_decode_hints(opts@),
            warnings.deep_view() + spec_decode_unknown_keys(opts@.skip(i as int))
                == spec_decode_unknown_keys(opts@),
        decreases n - i,
    {
        proof {
            assert(opts@.skip(i as int)[0] == opts@[i as int]);
            assert(opts@.skip(i as int).drop_first() =~= opts@.skip(i as int + 1));
        }
        let key: &String = &opts[i].0;
        let val: &HintValue = &opts[i].1;
        if eq_upper(key.as_str(), "TRY_HARDER") {
            match val {
                HintValue::Bool(b) => {
                    hints.try_harder = Some(*b);
                },
                _ => {
                    return Err(Error::Validation(String::from_str("TRY_HARDER expects a boolean value")));
                },
            }
        } else if eq_upper(key.as_str(), "PURE_BARCODE") {
            match val {
                HintValue::Bool(b) => {
                    hints.pure_barcode = Some(*b);
                },
                _ => {
                    return Err(Error::Validation(String::from_str("PURE_BARCODE expects a boolean value")));
                },
            }
        } else if eq_upper(key.as_str(), "POSSIBLE_FORMATS") {
            match val {
                HintValue::TextList(names) => {
                    match parse_format_list(names) {
                        Ok(fs) => {
                            if fs.len() > 0 {
                                hints.possible_formats = Some(fs);
                            }
                        },
                        Err(m) => {
                            return Err(Error::Validation(m));
                        },
                    }
                },
                _ => {
                    return Err(Error::Validation(String::from_str("POSSIBLE_FORMATS value must be a list of strings")));
                },
            }
        } else if eq_upper(key.as_str(), "CHARACTER_SET") {
            match val {
                HintValue::Text(s) => {
                    hints.character_set = Some(s.clone());
                },
                _ => {
                    return Err(Error::Validation(String::from_str("CHARACTER_SET expects a string value")));
                },
            }
        } else if eq_upper(key.as_str(), "ALSO_INVERTED") {
            match val {
                HintValue::Bool(b) => {
                    hints.also_inverted = Some(*b);
                },
                _ => {
                    return Err(Error::Validation(String::from_str("ALSO_INVERTED expects a boolean value")));
                },
            }
        } else {
            warnings.push(key.clone());
        }
        i = i + 1;
    }
    proof {
        assert(warnings.deep_view() + spec_decode_unknown_keys(opts@.skip(n as int))
            =~= warnings.deep_view());
    }
    Ok((hints, warnings))
}

/// Translates a dynamic option list into typed encode hints, with the same
/// policy as decoding: unknown keys are diagnostics, wrongly typed values
/// are a validation failure.
pub fn encode_hints_from_options(opts: &Vec<(String, HintValue)>) -> (r: Result<
    (EncodeOptions, Vec<String>),
    Error,
>)
    ensures
        match r {
            Ok(hw) => spec_encode_hints(opts@) == Ok::<EncodeOptionsView, Seq<char>>(hw.0@)
                && hw.1.deep_view() == spec_encode_unknown_keys(opts@),
            Err(e) => {
                &&& spec_encode_hints(opts@) matches Err(m)
                &&& e matches Error::Validation(t) && t@ == m
            },
        },
{
    let mut hints = EncodeOptions::unset();
    let mut warnings: Vec<String> = Vec::new();
    let n = opts.len();
    let mut i: usize = 0;
    proof {
        assert(opts@.skip(0) =~= opts@);
    }
    while i < n
        invariant
            n == opts@.len(),
            i <= n,
            spec_encode_hints_fold(opts@.skip(i as int), hints@) == spec_encode_hints(opts@),
            warnings.deep_view() + spec_encode_unknown_keys(opts@.skip(i as int))
                == spec_encode_unknown_keys(opts@),
        decreases n - i,
    {
        proof {
            assert(opts@.skip(i as int)[0] == opts@[i as int]);
            assert(opts@.skip(i as int).drop_first() =~= opts@.skip(i as int + 1));
        }
        let key: &String = &opts[i].0;
        let val: &HintValue = &opts[i].1;
        if eq_upper(key.as_str(), "ERROR_CORRECTION") {
            match val {
                HintValue::Text(s) => {
                    hints.error_correction = Some(s.clone());
                },
                _ => {
                    return Err(Error::Validation(String::from_str("ERROR_CORRECTION expects a string value")));
                },
            }
        } else if eq_upper(key.as_str(), "CHARACTER_SET") {
            match val {
                HintValue::Text(s) => {
                    hints.character_set = Some(s.clone());
                },
                _ => {
                    return Err(Error::Validation(String::from_str("CHARACTER_SET expects a string value")));
                },
            }
        } else if eq_upper(key.as_str(), "MARGIN") {
            match val {
                HintValue::Int(v) => {
                    hints.margin = Some(*v);
                },
                _ => {
                    return Err(Error::Validation(String::from_str("MARGIN expects an integer value")));
                },
            }
        } else if eq_upper(key.as_str(), "QR_VERSION") {
            match val {
                HintValue::Int(v) => {
                    hints.qr_version = Some(*v);
                },
                _ => {
                    return Err(Error::Validation(String::from_str("QR_VERSION expects an integer value")));
                },
            }
        } else {
            warnings.push(key.clone());
        }
        i = i + 1;
    }
    proof {
        assert(warnings.deep_view() + spec_encode_unknown_keys(opts@.skip(n as int))
            =~= warnings.deep_view());
    }
    Ok((hints, warnings))
}


proof fn lemma_decode_fold_push_unknown(
    opts: Seq<(String, HintValue)>,
    key: String,
    val: HintValue,
    h: DecodeOptionsView,
)
    requires
        !decode_key_recognized(upper(key@)),
    ensures
        spec_decode_hints_fold(opts.push((key, val)), h) == spec_decode_hints_fold(opts, h),
    decreases opts.len(),
{
    let p = (key, val);
    if opts.len() == 0 {
        assert(opts.push(p)[0] == p);
        assert(opts.push(p).drop_first() =~= opts);
    } else {
        assert(opts.push(p)[0] == opts[0]);
        assert(opts.push(p).drop_first() =~= opts.drop_first().push(p));
        match spec_apply_decode_option(h, opts[0].0@, opts[0].1) {
            Ok(h2) => {
                lemma_decode_fold_push_unknown(opts.drop_first(), key, val, h2);
            },
            Err(_) => {},
        }
    }
}

/// Unknown option keys never cause a decode call to fail, and never change
/// the hints: appending an unrecognized key to any option list leaves the
/// translated hints (or the failure) exactly as they were, and only adds
/// the key to the diagnostics.
pub proof fn lemma_decode_unknown_key_ignored(
    opts: Seq<(String, HintValue)>,
    key: String,
    val: HintValue,
)
    requires
        !decode_key_recognized(upper(key@)),
    ensures
        spec_decode_hints(opts.push((key, val))) == spec_decode_hints(opts),
        spec_decode_unknown_keys(opts.push((key, val))) == spec_decode_unknown_keys(opts).push(
            key@,
        ),
    decreases opts.len(),
{
    lemma_decode_fold_push_unknown(opts, key, val, DecodeOptionsView::unset());
    let p = (key, val);
    if opts.len() == 0 {
        assert(opts.push(p)[0] == p);
        assert(opts.push(p).drop_first() =~= opts);
        assert(spec_decode_unknown_keys(opts.push(p)) =~= spec_decode_unknown_keys(opts).push(
            key@,
        ));
    } else {
        assert(opts.push(p)[0] == opts[0]);
        assert(opts.push(p).drop_first() =~= opts.drop_first().push(p));
        lemma_decode_unknown_key_ignored(opts.drop_first(), key, val);
        assert(spec_decode_unknown_keys(opts.push(p)) =~= spec_decode_unknown_keys(opts).push(
            key@,
        ));
    }
}

proof fn lemma_encode_fold_push_unknown(
    opts: Seq<(String, HintValue)>,
    key: String,
    val: HintValue,
    h: EncodeOptionsView,
)
    requires
        !encode_key_recognized(upper(key@)),
    ensures
        spec_encode_hints_fold(opts.push((key, val)), h) == spec_encode_hints_fold(opts, h),
    decreases opts.len(),
{
    let p = (key, val);
    if opts.len() == 0 {
        assert(opts.push(p)[0] == p);
        assert(opts.push(p).drop_first() =~= opts);
    } else {
        assert(opts.push(p)[0] == opts[0]);
        assert(opts.push(p).drop_first() =~= opts.drop_first().push(p));
        match spec_apply_encode_option(h, opts[0].0@, opts[0].1) {
            Ok(h2) => {
                lemma_encode_fold_push_unknown(opts.drop_first(), key, val, h2);
            },
            Err(_) => {},
        }
    }
}

/// Unknown option keys never cause an encode call to fail: appending an
/// unrecognized key leaves the translated hints (or the failure) exactly as
/// they were, and only adds the key to the diagnostics.
pub proof fn lemma_encode_unknown_key_ignored(
    opts: Seq<(String, HintValue)>,
    key: String,
    val: HintValue,
)
    requires
        !encode_key_recognized(upper(key@)),
    ensures
        spec_encode_hints(opts.push((key, val))) == spec_encode_hints(opts),
        spec_encode_unknown_keys(opts.push((key, val))) == spec_encode_unknown_keys(opts).push(
            key@,
        ),
    decreases opts.len(),
{
    lemma_encode_fold_push_unknown(opts, key, val, EncodeOptionsView::unset());
    let p = (key, val);
    if opts.len() == 0 {
        assert(opts.push(p)[0] == p);
        assert(opts.push(p).drop_first() =~= opts);
        assert(spec_encode_unknown_keys(opts.push(p)) =~= spec_encode_unknown_keys(opts).push(
            key@,
        ));
    } else {
        assert(opts.push(p)[0] == opts[0]);
        assert(opts.push(p).drop_first() =~= opts.drop_first().push(p));
        lemma_encode_unknown_key_ignored(opts.drop_first(), key, val);
        assert(spec_encode_unknown_keys(opts.push(p)) =~= spec_encode_unknown_keys(opts).push(
            key@,
        ));
    }
}

} // verus!
