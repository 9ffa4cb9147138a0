//! The closed catalog of barcode symbologies, with its bidirectional string
//! mapping: every format has one canonical name, and parsing a name is a
//! case-insensitive lookup that fails loudly on anything outside the catalog.

use vstd::prelude::*;
use crate::text::{upper, eq_upper};

verus! {

/// One barcode symbology of the closed catalog.
#[derive(Clone, Copy, PartialEq, Eq, Structural, Debug)]
pub enum BarcodeFormat {
    Aztec,
    Codabar,
    Code39,
    Code93,
    Code128,
    DataMatrix,
    Ean8,
    Ean13,
    Itf,
    Maxicode,
    Pdf417,
    QrCode,
    Rss14,
    RssExpanded,
    UpcA,
    UpcE,
    UpcEanExtension,
}

impl BarcodeFormat {
    /// The canonical (uppercase) name of this format.
    pub open spec fn spec_name(self) -> Seq<char> {
        match self {
            BarcodeFormat::Aztec => "AZTEC"@,
            BarcodeFormat::Codabar => "CODABAR"@,
            BarcodeFormat::Code39 => "CODE_39"@,
            BarcodeFormat::Code93 => "CODE_93"@,
            BarcodeFormat::Code128 => "CODE_128"@,
            BarcodeFormat::DataMatrix => "DATA_MATRIX"@,
            BarcodeFormat::Ean8 => "EAN_8"@,
            BarcodeFormat::Ean13 => "EAN_13"@,
            BarcodeFormat::Itf => "ITF"@,
            BarcodeFormat::Maxicode => "MAXICODE"@,
            BarcodeFormat::Pdf417 => "PDF_417"@,
            BarcodeFormat::QrCode => "QR_CODE"@,
            BarcodeFormat::Rss14 => "RSS_14"@,
            BarcodeFormat::RssExpanded => "RSS_EXPANDED"@,
            BarcodeFormat::UpcA => "UPC_A"@,
            BarcodeFormat::UpcE => "UPC_E"@,
            BarcodeFormat::UpcEanExtension => "UPC_EAN_EXTENSION"@,
        }
    }

    /// The canonical name of this format, as callers see it.
    pub fn name(&self) -> (r: &'static str)
        ensures
            r@ == self.spec_name(),
    {
        match self {
            BarcodeFormat::Aztec => "AZTEC",
            BarcodeFormat::Codabar => "CODABAR",
            BarcodeFormat::Code39 => "CODE_39",
            BarcodeFormat::Code93 => "CODE_93",
            BarcodeFormat::Code128 => "CODE_128",
            BarcodeFormat::DataMatrix => "DATA_MATRIX",
            BarcodeFormat::Ean8 => "EAN_8",
            BarcodeFormat::Ean13 => "EAN_13",
            BarcodeFormat::Itf => "ITF",
            BarcodeFormat::Maxicode => "MAXICODE",
            BarcodeFormat::Pdf417 => "PDF_417",
            BarcodeFormat::QrCode => "QR_CODE",
            BarcodeFormat::Rss14 => "RSS_14",
            BarcodeFormat::RssExpanded => "RSS_EXPANDED",
            BarcodeFormat::UpcA => "UPC_A",
            BarcodeFormat::UpcE => "UPC_E",
            BarcodeFormat::UpcEanExtension => "UPC_EAN_EXTENSION",
        }
    }

    /// What parsing a format name yields: the catalog member whose canonical
    /// name equals the uppercased input, if any.
    pub open spec fn spec_parse(s: Seq<char>) -> Option<BarcodeFormat> {
        let u = upper(s);
        if u == "AZTEC"@ {
            Some(BarcodeFormat::Aztec)
        } else if u == "CODABAR"@ {
            Some(BarcodeFormat::Codabar)
        } else if u == "CODE_39"@ {
            Some(BarcodeFormat::Code39)
        } else if u == "CODE_93"@ {
            Some(BarcodeFormat::Code93)
        } else if u == "CODE_128"@ {
            Some(BarcodeFormat::Code128)
        } else if u == "DATA_MATRIX"@ {
            Some(BarcodeFormat::DataMatrix)
        } else if u == "EAN_8"@ {
            Some(BarcodeFormat::Ean8)
        } else if u == "EAN_13"@ {
            Some(BarcodeFormat::Ean13)
        } else if u == "ITF"@ {
            Some(BarcodeFormat::Itf)
        } else if u == "MAXICODE"@ {
            Some(BarcodeFormat::Maxicode)
        } else if u == "PDF_417"@ {
            Some(BarcodeFormat::Pdf417)
        } else if u == "QR_CODE"@ {
            Some(BarcodeFormat::QrCode)
        } else if u == "RSS_14"@ {
            Some(BarcodeFormat::Rss14)
        } else if u == "RSS_EXPANDED"@ {
            Some(BarcodeFormat::RssExpanded)
        } else if u == "UPC_A"@ {
            Some(BarcodeFormat::UpcA)
        } else if u == "UPC_E"@ {
            Some(BarcodeFormat::UpcE)
        } else if u == "UPC_EAN_EXTENSION"@ {
            Some(BarcodeFormat::UpcEanExtension)
        } else {
            None
        }
    }

    /// Parses a format name, case-insensitively over ASCII letters (see
    /// `text::upper_char` for why the normalization is ASCII-only); anything
    /// outside the catalog yields `None`.
    pub fn parse(s: &str) -> (r: Option<BarcodeFormat>)
        ensures
            r == Self::spec_parse(s@),
    {
        if eq_upper(s, "AZTEC") {
            Some(BarcodeFormat::Aztec)
        } else if eq_upper(s, "CODABAR") {
            Some(BarcodeFormat::Codabar)
        } else if eq_upper(s, "CODE_39") {
            Some(BarcodeFormat::Code39)
        } else if eq_upper(s, "CODE_93") {
            Some(BarcodeFormat::Code93)
        } else if eq_upper(s, "CODE_128") {
            Some(BarcodeFormat::Code128)
        } else if eq_upper(s, "DATA_MATRIX") {
            Some(BarcodeFormat::DataMatrix)
        } else if eq_upper(s, "EAN_8") {
            Some(BarcodeFormat::Ean8)
        } else if eq_upper(s, "EAN_13") {
            Some(BarcodeFormat::Ean13)
        } else if eq_upper(s, "ITF") {
            Some(BarcodeFormat::Itf)
        } else if eq_upper(s, "MAXICODE") {
            Some(BarcodeFormat::Maxicode)
        } else if eq_upper(s, "PDF_417") {
            Some(BarcodeFormat::Pdf417)
        } else if eq_upper(s, "QR_CODE") {
            Some(BarcodeFormat::QrCode)
        } else if eq_upper(s, "RSS_14") {
            Some(BarcodeFormat::Rss14)
        } else if eq_upper(s, "RSS_EXPANDED") {
            Some(BarcodeFormat::RssExpanded)
        } else if eq_upper(s, "UPC_A") {
            Some(BarcodeFormat::UpcA)
        } else if eq_upper(s, "UPC_E") {
            Some(BarcodeFormat::UpcE)
        } else if eq_upper(s, "UPC_EAN_EXTENSION") {
            Some(BarcodeFormat::UpcEanExtension)
        } else {
            None
        }
    }

    /// Every member of the catalog, in its canonical order.
    pub fn all() -> (r: Vec<BarcodeFormat>)
        ensures
            r@.len() == 17,
            forall|i: int| 0 <= i < 17 ==> r@[i] == Self::spec_catalog()[i],
    {
        let v: Vec<BarcodeFormat> = vec![
            BarcodeFormat::Aztec,
            BarcodeFormat::Codabar,
            BarcodeFormat::Code39,
            BarcodeFormat::Code93,
            BarcodeFormat::Code128,
            BarcodeFormat::DataMatrix,
            BarcodeFormat::Ean8,
            BarcodeFormat::Ean13,
            BarcodeFormat::Itf,
            BarcodeFormat::Maxicode,
            BarcodeFormat::Pdf417,
            BarcodeFormat::QrCode,
            BarcodeFormat::Rss14,
            BarcodeFormat::RssExpanded,
            BarcodeFormat::UpcA,
            BarcodeFormat::UpcE,
            BarcodeFormat::UpcEanExtension,
        ];
        v
    }

    /// The read-only catalog of canonical format names, in catalog order,
    /// for callers that build format arguments without guessing casing.
    pub fn catalog_names() -> (r: Vec<String>)
        ensures
            r@.len() == Self::spec_catalog().len(),
            forall|i: int|
                0 <= i < r@.len() ==> (#[trigger] r@[i])@ == Self::spec_catalog()[i].spec_name(),
    {
        let all = Self::all();
        let mut names: Vec<String> = Vec::new();
        let n = all.len();
        let mut i: usize = 0;
        while i < n
            invariant
                n == all@.len(),
                n == Self::spec_catalog().len(),
                forall|j: int| 0 <= j < n ==> all@[j] == Self::spec_catalog()[j],
                i <= n,
                names@.len() == i,
                forall|j: int|
                    0 <= j < i ==> (#[trigger] names@[j])@ == Self::spec_catalog()[j].spec_name(),
            decreases n - i,
        {
            names.push(String::from_str(all[i].name()));
            i = i + 1;
        }
        names
    }

    /// Every canonical name is already uppercase, so case normalization
    /// leaves it unchanged.
    pub proof fn lemma_name_is_canonical(f: BarcodeFormat)
        ensures
            upper(f.spec_name()) == f.spec_name(),
    {
        reveal_strlit("AZTEC");
        reveal_strlit("CODABAR");
        reveal_strlit("CODE_39");
        reveal_strlit("CODE_93");
        reveal_strlit("CODE_128");
        reveal_strlit("DATA_MATRIX");
        reveal_strlit("EAN_8");
        reveal_strlit("EAN_13");
        reveal_strlit("ITF");
        reveal_strlit("MAXICODE");
        reveal_strlit("PDF_417");
        reveal_strlit("QR_CODE");
        reveal_strlit("RSS_14");
        reveal_strlit("RSS_EXPANDED");
        reveal_strlit("UPC_A");
        reveal_strlit("UPC_E");
        reveal_strlit("UPC_EAN_EXTENSION");
        assert(upper(f.spec_name()) =~= f.spec_name());
    }

    /// Parsing a canonical name, in any casing that uppercases to it, yields
    /// the format it names: the catalog's string mapping round-trips.
    pub proof fn lemma_parse_name_roundtrip(f: BarcodeFormat)
        ensures
            Self::spec_parse(f.spec_name()) == Some(f),
    {
        reveal_strlit("AZTEC");
        reveal_strlit("CODABAR");
        reveal_strlit("CODE_39");
        reveal_strlit("CODE_93");
        reveal_strlit("CODE_128");
        reveal_strlit("DATA_MATRIX");
        reveal_strlit("EAN_8");
        reveal_strlit("EAN_13");
        reveal_strlit("ITF");
        reveal_strlit("MAXICODE");
        reveal_strlit("PDF_417");
        reveal_strlit("QR_CODE");
        reveal_strlit("RSS_14");
        reveal_strlit("RSS_EXPANDED");
        reveal_strlit("UPC_A");
        reveal_strlit("UPC_E");
        reveal_strlit("UPC_EAN_EXTENSION");
        Self::lemma_name_is_canonical(f);
        match f {
            BarcodeFormat::Aztec => assert(Self::spec_parse(f.spec_name()) == Some(f)),
            BarcodeFormat::Codabar => assert(Self::spec_parse(f.spec_name()) == Some(f)),
            BarcodeFormat::Code39 => {
                assert("CODE_39"@[3] != "CODABAR"@[3]);
                assert(Self::spec_parse(f.spec_name()) == Some(f));
            },
            BarcodeFormat::Code93 => {
                assert("CODE_93"@[3] != "CODABAR"@[3]);
                assert("CODE_93"@[5] != "CODE_39"@[5]);
                assert(Self::spec_parse(f.spec_name()) == Some(f));
            },
            BarcodeFormat::Code128 => assert(Self::spec_parse(f.spec_name()) == Some(f)),
            BarcodeFormat::DataMatrix => assert(Self::spec_parse(f.spec_name()) == Some(f)),
            BarcodeFormat::Ean8 => {
                assert("EAN_8"@[0] != "AZTEC"@[0]);
                assert(Self::spec_parse(f.spec_name()) == Some(f));
            },
            BarcodeFormat::Ean13 => assert(Self::spec_parse(f.spec_name()) == Some(f)),
            BarcodeFormat::Itf => assert(Self::spec_parse(f.spec_name()) == Some(f)),
            BarcodeFormat::Maxicode => {
                assert("MAXICODE"@[0] != "CODE_128"@[0]);
                assert(Self::spec_parse(f.spec_name()) == Some(f));
            },
            BarcodeFormat::Pdf417 => {
                assert("PDF_417"@[0] != "CODABAR"@[0]);
                assert("PDF_417"@[0] != "CODE_39"@[0]);
                assert("PDF_417"@[0] != "CODE_93"@[0]);
                assert(Self::spec_parse(f.spec_name()) == Some(f));
            },
            BarcodeFormat::QrCode => {
                assert("QR_CODE"@[0] != "CODABAR"@[0]);
                assert("QR_CODE"@[0] != "CODE_39"@[0]);
                assert("QR_CODE"@[0] != "CODE_93"@[0]);
                assert("QR_CODE"@[0] != "PDF_417"@[0]);
                assert(Self::spec_parse(f.spec_name()) == Some(f));
            },
            BarcodeFormat::Rss14 => {
                assert("RSS_14"@[0] != "EAN_13"@[0]);
                assert(Self::spec_parse(f.spec_name()) == Some(f));
            },
            BarcodeFormat::RssExpanded => assert(Self::spec_parse(f.spec_name()) == Some(f)),
            BarcodeFormat::UpcA => {
                assert("UPC_A"@[0] != "AZTEC"@[0]);
                assert("UPC_A"@[0] != "EAN_8"@[0]);
                assert(Self::spec_parse(f.spec_name()) == Some(f));
            },
            BarcodeFormat::UpcE => {
                assert("UPC_E"@[0] != "AZTEC"@[0]);
                assert("UPC_E"@[0] != "EAN_8"@[0]);
                assert("UPC_E"@[4] != "UPC_A"@[4]);
                assert(Self::spec_parse(f.spec_name()) == Some(f));
            },
            BarcodeFormat::UpcEanExtension => assert(Self::spec_parse(f.spec_name()) == Some(f)),
        }
    }

    /// Parsing succeeds only on catalog names: a successful parse means the
    /// uppercased input is exactly the canonical name of what it yields.
    pub proof fn lemma_parse_only_catalog(s: Seq<char>, f: BarcodeFormat)
        requires
            Self::spec_parse(s) == Some(f),
        ensures
            upper(s) == f.spec_name(),
    {
    }

    /// The catalog as a sequence, in its canonical order.
    pub open spec fn spec_catalog() -> Seq<BarcodeFormat> {
        seq![
            BarcodeFormat::Aztec,
            BarcodeFormat::Codabar,
            BarcodeFormat::Code39,
            BarcodeFormat::Code93,
            BarcodeFormat::Code128,
            BarcodeFormat::DataMatrix,
            BarcodeFormat::Ean8,
            BarcodeFormat::Ean13,
            BarcodeFormat::Itf,
            BarcodeFormat::Maxicode,
            BarcodeFormat::Pdf417,
            BarcodeFormat::QrCode,
            BarcodeFormat::Rss14,
            BarcodeFormat::RssExpanded,
            BarcodeFormat::UpcA,
            BarcodeFormat::UpcE,
            BarcodeFormat::UpcEanExtension,
        ]
    }
}

} // verus!
