//! Concrete encodings persisted with import facts. Automatic detection is a preview option.
use vstd::prelude::*;
use crate::strings::str_eq;

verus! {

/// A concrete text encoding. `Utf8Bom` decodes as UTF-8 and records that the
/// file starts with a byte-order mark.
#[derive(Clone, Copy, Debug, PartialEq, Eq, Structural)]
#[allow(non_camel_case_types)]
pub enum Encoding {
    Utf8,
    Utf8Bom,
    Gb18030,
    Utf16Le,
    Utf16Be,
    Big5,
    ShiftJis,
    EucJp,
    Iso2022Jp,
    EucKr,
    Windows1252,
    Windows1251,
    Windows1250,
    Windows1253,
    Windows1254,
    Windows1255,
    Windows1256,
    Windows1257,
    Windows1258,
    Windows874,
    Koi8R,
    Koi8U,
    Ibm866,
    Macintosh,
    XMacCyrillic,
    Iso8859_2,
    Iso8859_3,
    Iso8859_4,
    Iso8859_5,
    Iso8859_6,
    Iso8859_7,
    Iso8859_8,
    Iso8859_10,
    Iso8859_13,
    Iso8859_14,
    Iso8859_15,
    Iso8859_16,
    Iso8859_8I,
}

/// The name of the decoder each encoding uses, as `encoding_rs` spells it.
pub open spec fn spec_codec_name(e: Encoding) -> Seq<char> {
    match e {
        Encoding::Utf8 => "UTF-8"@,
        Encoding::Utf8Bom => "UTF-8"@,
        Encoding::Gb18030 => "gb18030"@,
        Encoding::Utf16Le => "UTF-16LE"@,
        Encoding::Utf16Be => "UTF-16BE"@,
        Encoding::Big5 => "Big5"@,
        Encoding::ShiftJis => "Shift_JIS"@,
        Encoding::EucJp => "EUC-JP"@,
        Encoding::Iso2022Jp => "ISO-2022-JP"@,
        Encoding::EucKr => "EUC-KR"@,
        Encoding::Windows1252 => "windows-1252"@,
        Encoding::Windows1251 => "windows-1251"@,
        Encoding::Windows1250 => "windows-1250"@,
        Encoding::Windows1253 => "windows-1253"@,
        Encoding::Windows1254 => "windows-1254"@,
        Encoding::Windows1255 => "windows-1255"@,
        Encoding::Windows1256 => "windows-1256"@,
        Encoding::Windows1257 => "windows-1257"@,
        Encoding::Windows1258 => "windows-1258"@,
        Encoding::Windows874 => "windows-874"@,
        Encoding::Koi8R => "KOI8-R"@,
        Encoding::Koi8U => "KOI8-U"@,
        Encoding::Ibm866 => "IBM866"@,
        Encoding::Macintosh => "macintosh"@,
        Encoding::XMacCyrillic => "x-mac-cyrillic"@,
        Encoding::Iso8859_2 => "ISO-8859-2"@,
        Encoding::Iso8859_3 => "ISO-8859-3"@,
        Encoding::Iso8859_4 => "ISO-8859-4"@,
        Encoding::Iso8859_5 => "ISO-8859-5"@,
        Encoding::Iso8859_6 => "ISO-8859-6"@,
        Encoding::Iso8859_7 => "ISO-8859-7"@,
        Encoding::Iso8859_8 => "ISO-8859-8"@,
        Encoding::Iso8859_10 => "ISO-8859-10"@,
        Encoding::Iso8859_13 => "ISO-8859-13"@,
        Encoding::Iso8859_14 => "ISO-8859-14"@,
        Encoding::Iso8859_15 => "ISO-8859-15"@,
        Encoding::Iso8859_16 => "ISO-8859-16"@,
        Encoding::Iso8859_8I => "ISO-8859-8-I"@,
    }
}

/// Every concrete encoding, in the order detection prefers them.
pub open spec fn all_encodings() -> Seq<Encoding> {
    seq![
        Encoding::Utf8,
        Encoding::Utf8Bom,
        Encoding::Gb18030,
        Encoding::Utf16Le,
        Encoding::Utf16Be,
        Encoding::Big5,
        Encoding::ShiftJis,
        Encoding::EucJp,
        Encoding::Iso2022Jp,
        Encoding::EucKr,
        Encoding::Windows1252,
        Encoding::Windows1251,
        Encoding::Windows1250,
        Encoding::Windows1253,
        Encoding::Windows1254,
        Encoding::Windows1255,
        Encoding::Windows1256,
        Encoding::Windows1257,
        Encoding::Windows1258,
        Encoding::Windows874,
        Encoding::Koi8R,
        Encoding::Koi8U,
        Encoding::Ibm866,
        Encoding::Macintosh,
        Encoding::XMacCyrillic,
        Encoding::Iso8859_2,
        Encoding::Iso8859_3,
        Encoding::Iso8859_4,
        Encoding::Iso8859_5,
        Encoding::Iso8859_6,
        Encoding::Iso8859_7,
        Encoding::Iso8859_8,
        Encoding::Iso8859_10,
        Encoding::Iso8859_13,
        Encoding::Iso8859_14,
        Encoding::Iso8859_15,
        Encoding::Iso8859_16,
        Encoding::Iso8859_8I,
    ]
}

/// The first encoding in `list` whose decoder has the given name.
pub open spec fn first_with_codec(list: Seq<Encoding>, name: Seq<char>) -> Option<Encoding>
    decreases list.len(),
{
    if list.len() == 0 {
        None
    } else if spec_codec_name(list[0]) == name {
        Some(list[0])
    } else {
        first_with_codec(list.drop_first(), name)
    }
}

/// The concrete encoding for a decoder name: GBK is read with the GB18030
/// decoder; otherwise the first encoding using that decoder, if any.
pub open spec fn spec_from_codec_name(name: Seq<char>) -> Option<Encoding> {
    if name == "GBK"@ {
        Some(Encoding::Gb18030)
    } else {
        first_with_codec(all_encodings(), name)
    }
}

impl Encoding {
    /// The decoder name of this encoding.
    pub fn codec_name(self) -> (r: &'static str)
        ensures
            r@ == spec_codec_name(self),
    {
        match self {
            Encoding::Utf8 => "UTF-8",
            Encoding::Utf8Bom => "UTF-8",
            Encoding::Gb18030 => "gb18030",
            Encoding::Utf16Le => "UTF-16LE",
            Encoding::Utf16Be => "UTF-16BE",
            Encoding::Big5 => "Big5",
            Encoding::ShiftJis => "Shift_JIS",
            Encoding::EucJp => "EUC-JP",
            Encoding::Iso2022Jp => "ISO-2022-JP",
            Encoding::EucKr => "EUC-KR",
            Encoding::Windows1252 => "windows-1252",
            Encoding::Windows1251 => "windows-1251",
            Encoding::Windows1250 => "windows-1250",
            Encoding::Windows1253 => "windows-1253",
            Encoding::Windows1254 => "windows-1254",
            Encoding::Windows1255 => "windows-1255",
            Encoding::Windows1256 => "windows-1256",
            Encoding::Windows1257 => "windows-1257",
            Encoding::Windows1258 => "windows-1258",
            Encoding::Windows874 => "windows-874",
            Encoding::Koi8R => "KOI8-R",
            Encoding::Koi8U => "KOI8-U",
            Encoding::Ibm866 => "IBM866",
            Encoding::Macintosh => "macintosh",
            Encoding::XMacCyrillic => "x-mac-cyrillic",
            Encoding::Iso8859_2 => "ISO-8859-2",
            Encoding::Iso8859_3 => "ISO-8859-3",
            Encoding::Iso8859_4 => "ISO-8859-4",
            Encoding::Iso8859_5 => "ISO-8859-5",
            Encoding::Iso8859_6 => "ISO-8859-6",
            Encoding::Iso8859_7 => "ISO-8859-7",
            Encoding::Iso8859_8 => "ISO-8859-8",
            Encoding::Iso8859_10 => "ISO-8859-10",
            Encoding::Iso8859_13 => "ISO-8859-13",
            Encoding::Iso8859_14 => "ISO-8859-14",
            Encoding::Iso8859_15 => "ISO-8859-15",
            Encoding::Iso8859_16 => "ISO-8859-16",
            Encoding::Iso8859_8I => "ISO-8859-8-I",
        }
    }

    /// Every concrete encoding, in the order detection prefers them.
    pub fn all() -> (r: Vec<Encoding>)
        ensures
            r@ == all_encodings(),
    {
        let r = vec![
            Encoding::Utf8,
            Encoding::Utf8Bom,
            Encoding::Gb18030,
            Encoding::Utf16Le,
            Encoding::Utf16Be,
            Encoding::Big5,
            Encoding::ShiftJis,
            Encoding::EucJp,
            Encoding::Iso2022Jp,
            Encoding::EucKr,
            Encoding::Windows1252,
            Encoding::Windows1251,
            Encoding::Windows1250,
            Encoding::Windows1253,
            Encoding::Windows1254,
            Encoding::Windows1255,
            Encoding::Windows1256,
            Encoding::Windows1257,
            Encoding::Windows1258,
            Encoding::Windows874,
            Encoding::Koi8R,
            Encoding::Koi8U,
            Encoding::Ibm866,
            Encoding::Macintosh,
            Encoding::XMacCyrillic,
            Encoding::Iso8859_2,
            Encoding::Iso8859_3,
            Encoding::Iso8859_4,
            Encoding::Iso8859_5,
            Encoding::Iso8859_6,
            Encoding::Iso8859_7,
            Encoding::Iso8859_8,
            Encoding::Iso8859_10,
            Encoding::Iso8859_13,
            Encoding::Iso8859_14,
            Encoding::Iso8859_15,
            Encoding::Iso8859_16,
            Encoding::Iso8859_8I,
        ];
        assert(r@ =~= all_encodings());
        r
    }

    /// The concrete encoding read by the decoder with the given name.
    pub fn from_codec_name(name: &str) -> (r: Option<Encoding>)
        ensures
            r == spec_from_codec_name(name@),
    {
        if str_eq(name, "GBK") {
            return Some(Encoding::Gb18030);
        }
        let all = Encoding::all();
        let mut i: usize = 0;
        assert(all@.skip(0) == all@);
        while i < all.len()
            invariant
                0 <= i <= all@.len(),
                all@ == all_encodings(),
                name@ != "GBK"@,
                first_with_codec(all@.skip(i as int), name@) == spec_from_codec_name(name@),
            decreases all@.len() - i,
        {
            assert(all@.skip(i as int).drop_first() == all@.skip(i as int + 1));
            if str_eq(all[i].codec_name(), name) {
                return Some(all[i]);
            }
            i += 1;
        }
        None
    }
}


/// Every concrete encoding reads with a decoder of its own: looking its
/// decoder's name up gives the encoding back, for all but `Utf8Bom`, which
/// shares UTF-8's decoder and looks up as `Utf8`. `GBK` names the GB18030
/// decoder.
pub proof fn codec_names_round_trip(e: Encoding)
    ensures
        e != Encoding::Utf8Bom ==> spec_from_codec_name(spec_codec_name(e)) == Some(e),
        e == Encoding::Utf8Bom ==> spec_from_codec_name(spec_codec_name(e)) == Some(Encoding::Utf8),
        spec_from_codec_name("GBK"@) == Some(Encoding::Gb18030),
{
    reveal_strlit("UTF-8");
    reveal_strlit("gb18030");
    reveal_strlit("UTF-16LE");
    reveal_strlit("UTF-16BE");
    reveal_strlit("Big5");
    reveal_strlit("Shift_JIS");
    reveal_strlit("EUC-JP");
    reveal_strlit("ISO-2022-JP");
    reveal_strlit("EUC-KR");
    reveal_strlit("windows-1252");
    reveal_strlit("windows-1251");
    reveal_strlit("windows-1250");
    reveal_strlit("windows-1253");
    reveal_strlit("windows-1254");
    reveal_strlit("windows-1255");
    reveal_strlit("windows-1256");
    reveal_strlit("windows-1257");
    reveal_strlit("windows-1258");
    reveal_strlit("windows-874");
    reveal_strlit("KOI8-R");
    reveal_strlit("KOI8-U");
    reveal_strlit("IBM866");
    reveal_strlit("macintosh");
    reveal_strlit("x-mac-cyrillic");
    reveal_strlit("ISO-8859-2");
    reveal_strlit("ISO-8859-3");
    reveal_strlit("ISO-8859-4");
    reveal_strlit("ISO-8859-5");
    reveal_strlit("ISO-8859-6");
    reveal_strlit("ISO-8859-7");
    reveal_strlit("ISO-8859-8");
    reveal_strlit("ISO-8859-10");
    reveal_strlit("ISO-8859-13");
    reveal_strlit("ISO-8859-14");
    reveal_strlit("ISO-8859-15");
    reveal_strlit("ISO-8859-16");
    reveal_strlit("ISO-8859-8-I");
    reveal_strlit("GBK");
    // Decoder names of different lengths differ; those of equal length differ at a character.
    assert("GBK"@.len() == 3);
    assert("UTF-8"@.len() == 5);
    assert("gb18030"@.len() == 7);
    assert("UTF-16LE"@.len() == 8);
    assert("UTF-16BE"@.len() == 8);
    assert("Big5"@.len() == 4);
    assert("Shift_JIS"@.len() == 9);
    assert("EUC-JP"@.len() == 6);
    assert("ISO-2022-JP"@.len() == 11);
    assert("EUC-KR"@.len() == 6);
    assert("windows-1252"@.len() == 12);
    assert("windows-1251"@.len() == 12);
    assert("windows-1250"@.len() == 12);
    assert("windows-1253"@.len() == 12);
    assert("windows-1254"@.len() == 12);
    assert("windows-1255"@.len() == 12);
    assert("windows-1256"@.len() == 12);
    assert("windows-1257"@.len() == 12);
    assert("windows-1258"@.len() == 12);
    assert("windows-874"@.len() == 11);
    assert("KOI8-R"@.len() == 6);
    assert("KOI8-U"@.len() == 6);
    assert("IBM866"@.len() == 6);
    assert("macintosh"@.len() == 9);
    assert("x-mac-cyrillic"@.len() == 14);
    assert("ISO-8859-2"@.len() == 10);
    assert("ISO-8859-3"@.len() == 10);
    assert("ISO-8859-4"@.len() == 10);
    assert("ISO-8859-5"@.len() == 10);
    assert("ISO-8859-6"@.len() == 10);
    assert("ISO-8859-7"@.len() == 10);
    assert("ISO-8859-8"@.len() == 10);
    assert("ISO-8859-10"@.len() == 11);
    assert("ISO-8859-13"@.len() == 11);
    assert("ISO-8859-14"@.len() == 11);
    assert("ISO-8859-15"@.len() == 11);
    assert("ISO-8859-16"@.len() == 11);
    assert("ISO-8859-8-I"@.len() == 12);
    assert("UTF-16BE"@[6] != "UTF-16LE"@[6]);
    assert("EUC-KR"@[4] != "EUC-JP"@[4]);
    assert("windows-1251"@[11] != "windows-1252"@[11]);
    assert("windows-1250"@[11] != "windows-1252"@[11]);
    assert("windows-1250"@[11] != "windows-1251"@[11]);
    assert("windows-1253"@[11] != "windows-1252"@[11]);
    assert("windows-1253"@[11] != "windows-1251"@[11]);
    assert("windows-1253"@[11] != "windows-1250"@[11]);
    assert("windows-1254"@[11] != "windows-1252"@[11]);
    assert("windows-1254"@[11] != "windows-1251"@[11]);
    assert("windows-1254"@[11] != "windows-1250"@[11]);
    assert("windows-1254"@[11] != "windows-1253"@[11]);
    assert("windows-1255"@[11] != "windows-1252"@[11]);
    assert("windows-1255"@[11] != "windows-1251"@[11]);
    assert("windows-1255"@[11] != "windows-1250"@[11]);
    assert("windows-1255"@[11] != "windows-1253"@[11]);
    assert("windows-1255"@[11] != "windows-1254"@[11]);
    assert("windows-1256"@[11] != "windows-1252"@[11]);
    assert("windows-1256"@[11] != "windows-1251"@[11]);
    assert("windows-1256"@[11] != "windows-1250"@[11]);
    assert("windows-1256"@[11] != "windows-1253"@[11]);
    assert("windows-1256"@[11] != "windows-1254"@[11]);
    assert("windows-1256"@[11] != "windows-1255"@[11]);
    assert("windows-1257"@[11] != "windows-1252"@[11]);
    assert("windows-1257"@[11] != "windows-1251"@[11]);
    assert("windows-1257"@[11] != "windows-1250"@[11]);
    assert("windows-1257"@[11] != "windows-1253"@[11]);
    assert("windows-1257"@[11] != "windows-1254"@[11]);
    assert("windows-1257"@[11] != "windows-1255"@[11]);
    assert("windows-1257"@[11] != "windows-1256"@[11]);
    assert("windows-1258"@[11] != "windows-1252"@[11]);
    assert("windows-1258"@[11] != "windows-1251"@[11]);
    assert("windows-1258"@[11] != "windows-1250"@[11]);
    assert("windows-1258"@[11] != "windows-1253"@[11]);
    assert("windows-1258"@[11] != "windows-1254"@[11]);
    assert("windows-1258"@[11] != "windows-1255"@[11]);
    assert("windows-1258"@[11] != "windows-1256"@[11]);
    assert("windows-1258"@[11] != "windows-1257"@[11]);
    assert("windows-874"@[0] != "ISO-2022-JP"@[0]);
    assert("KOI8-R"@[0] != "EUC-JP"@[0]);
    assert("KOI8-R"@[0] != "EUC-KR"@[0]);
    assert("KOI8-U"@[0] != "EUC-JP"@[0]);
    assert("KOI8-U"@[0] != "EUC-KR"@[0]);
    assert("KOI8-U"@[5] != "KOI8-R"@[5]);
    assert("IBM866"@[0] != "EUC-JP"@[0]);
    assert("IBM866"@[0] != "EUC-KR"@[0]);
    assert("IBM866"@[0] != "KOI8-R"@[0]);
    assert("IBM866"@[0] != "KOI8-U"@[0]);
    assert("macintosh"@[0] != "Shift_JIS"@[0]);
    assert("ISO-8859-3"@[9] != "ISO-8859-2"@[9]);
    assert("ISO-8859-4"@[9] != "ISO-8859-2"@[9]);
    assert("ISO-8859-4"@[9] != "ISO-8859-3"@[9]);
    assert("ISO-8859-5"@[9] != "ISO-8859-2"@[9]);
    assert("ISO-8859-5"@[9] != "ISO-8859-3"@[9]);
    assert("ISO-8859-5"@[9] != "ISO-8859-4"@[9]);
    assert("ISO-8859-6"@[9] != "ISO-8859-2"@[9]);
    assert("ISO-8859-6"@[9] != "ISO-8859-3"@[9]);
    assert("ISO-8859-6"@[9] != "ISO-8859-4"@[9]);
    assert("ISO-8859-6"@[9] != "ISO-8859-5"@[9]);
    assert("ISO-8859-7"@[9] != "ISO-8859-2"@[9]);
    assert("ISO-8859-7"@[9] != "ISO-8859-3"@[9]);
    assert("ISO-8859-7"@[9] != "ISO-8859-4"@[9]);
    assert("ISO-8859-7"@[9] != "ISO-8859-5"@[9]);
    assert("ISO-8859-7"@[9] != "ISO-8859-6"@[9]);
    assert("ISO-8859-8"@[9] != "ISO-8859-2"@[9]);
    assert("ISO-8859-8"@[9] != "ISO-8859-3"@[9]);
    assert("ISO-8859-8"@[9] != "ISO-8859-4"@[9]);
    assert("ISO-8859-8"@[9] != "ISO-8859-5"@[9]);
    assert("ISO-8859-8"@[9] != "ISO-8859-6"@[9]);
    assert("ISO-8859-8"@[9] != "ISO-8859-7"@[9]);
    assert("ISO-8859-10"@[4] != "ISO-2022-JP"@[4]);
    assert("ISO-8859-10"@[0] != "windows-874"@[0]);
    assert("ISO-8859-13"@[4] != "ISO-2022-JP"@[4]);
    assert("ISO-8859-13"@[0] != "windows-874"@[0]);
    assert("ISO-8859-13"@[10] != "ISO-8859-10"@[10]);
    assert("ISO-8859-14"@[4] != "ISO-2022-JP"@[4]);
    assert("ISO-8859-14"@[0] != "windows-874"@[0]);
    assert("ISO-8859-14"@[10] != "ISO-8859-10"@[10]);
    assert("ISO-8859-14"@[10] != "ISO-8859-13"@[10]);
    assert("ISO-8859-15"@[4] != "ISO-2022-JP"@[4]);
    assert("ISO-8859-15"@[0] != "windows-874"@[0]);
    assert("ISO-8859-15"@[10] != "ISO-8859-10"@[10]);
    assert("ISO-8859-15"@[10] != "ISO-8859-13"@[10]);
    assert("ISO-8859-15"@[10] != "ISO-8859-14"@[10]);
    assert("ISO-8859-16"@[4] != "ISO-2022-JP"@[4]);
    assert("ISO-8859-16"@[0] != "windows-874"@[0]);
    assert("ISO-8859-16"@[10] != "ISO-8859-10"@[10]);
    assert("ISO-8859-16"@[10] != "ISO-8859-13"@[10]);
    assert("ISO-8859-16"@[10] != "ISO-8859-14"@[10]);
    assert("ISO-8859-16"@[10] != "ISO-8859-15"@[10]);
    assert("ISO-8859-8-I"@[0] != "windows-1252"@[0]);
    assert("ISO-8859-8-I"@[0] != "windows-1251"@[0]);
    assert("ISO-8859-8-I"@[0] != "windows-1250"@[0]);
    assert("ISO-8859-8-I"@[0] != "windows-1253"@[0]);
    assert("ISO-8859-8-I"@[0] != "windows-1254"@[0]);
    assert("ISO-8859-8-I"@[0] != "windows-1255"@[0]);
    assert("ISO-8859-8-I"@[0] != "windows-1256"@[0]);
    assert("ISO-8859-8-I"@[0] != "windows-1257"@[0]);
    assert("ISO-8859-8-I"@[0] != "windows-1258"@[0]);
    reveal_with_fuel(first_with_codec, 40);
}

/// Two encodings share a decoder only when they are UTF-8 with and without
/// a byte-order mark.
pub proof fn codec_names_are_distinct(a: Encoding, b: Encoding)
    requires
        spec_codec_name(a) == spec_codec_name(b),
    ensures
        a == b || ((a == Encoding::Utf8 || a == Encoding::Utf8Bom) && (b == Encoding::Utf8 || b == Encoding::Utf8Bom)),
{
    codec_names_round_trip(a);
    codec_names_round_trip(b);
}


/// The decoder each encoding reads with, by its `encoding_rs` name: each
/// encoding its own, UTF-8 with a byte-order mark that of UTF-8.
pub proof fn decoder_of_each_encoding()
    ensures
        spec_codec_name(Encoding::Utf8) == "UTF-8"@,
        spec_codec_name(Encoding::Utf8Bom) == "UTF-8"@,
        spec_codec_name(Encoding::Gb18030) == "gb18030"@,
        spec_codec_name(Encoding::Utf16Le) == "UTF-16LE"@,
        spec_codec_name(Encoding::Utf16Be) == "UTF-16BE"@,
        spec_codec_name(Encoding::Big5) == "Big5"@,
        spec_codec_name(Encoding::ShiftJis) == "Shift_JIS"@,
        spec_codec_name(Encoding::EucJp) == "EUC-JP"@,
        spec_codec_name(Encoding::Iso2022Jp) == "ISO-2022-JP"@,
        spec_codec_name(Encoding::EucKr) == "EUC-KR"@,
        spec_codec_name(Encoding::Windows1252) == "windows-1252"@,
        spec_codec_name(Encoding::Windows1251) == "windows-1251"@,
        spec_codec_name(Encoding::Windows1250) == "windows-1250"@,
        spec_codec_name(Encoding::Windows1253) == "windows-1253"@,
        spec_codec_name(Encoding::Windows1254) == "windows-1254"@,
        spec_codec_name(Encoding::Windows1255) == "windows-1255"@,
        spec_codec_name(Encoding::Windows1256) == "windows-1256"@,
        spec_codec_name(Encoding::Windows1257) == "windows-1257"@,
        spec_codec_name(Encoding::Windows1258) == "windows-1258"@,
        spec_codec_name(Encoding::Windows874) == "windows-874"@,
        spec_codec_name(Encoding::Koi8R) == "KOI8-R"@,
        spec_codec_name(Encoding::Koi8U) == "KOI8-U"@,
        spec_codec_name(Encoding::Ibm866) == "IBM866"@,
        spec_codec_name(Encoding::Macintosh) == "macintosh"@,
        spec_codec_name(Encoding::XMacCyrillic) == "x-mac-cyrillic"@,
        spec_codec_name(Encoding::Iso8859_2) == "ISO-8859-2"@,
        spec_codec_name(Encoding::Iso8859_3) == "ISO-8859-3"@,
        spec_codec_name(Encoding::Iso8859_4) == "ISO-8859-4"@,
        spec_codec_name(Encoding::Iso8859_5) == "ISO-8859-5"@,
        spec_codec_name(Encoding::Iso8859_6) == "ISO-8859-6"@,
        spec_codec_name(Encoding::Iso8859_7) == "ISO-8859-7"@,
        spec_codec_name(Encoding::Iso8859_8) == "ISO-8859-8"@,
        spec_codec_name(Encoding::Iso8859_10) == "ISO-8859-10"@,
        spec_codec_name(Encoding::Iso8859_13) == "ISO-8859-13"@,
        spec_codec_name(Encoding::Iso8859_14) == "ISO-8859-14"@,
        spec_codec_name(Encoding::Iso8859_15) == "ISO-8859-15"@,
        spec_codec_name(Encoding::Iso8859_16) == "ISO-8859-16"@,
        spec_codec_name(Encoding::Iso8859_8I) == "ISO-8859-8-I"@,
{
}

} // verus!
