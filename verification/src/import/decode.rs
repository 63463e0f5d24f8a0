//! Local encoding detection and strict decoding without filesystem access.
use vstd::prelude::*;
use vstd::utf8::{valid_utf8, decode_utf8};
use crate::error::CoreError;
use crate::import::encoding::{Encoding, spec_codec_name, spec_from_codec_name};
use crate::import::EncodingDetection;
use crate::strings::append_str;

verus! {

/// Decoded text with the encoding used and whether a byte-order mark was removed.
#[derive(Clone, Debug, PartialEq, Eq)]
pub struct DecodedText {
    pub text: String,
    pub encoding: Encoding,
    pub had_bom: bool,
}

/// The result of strict decoding with the decoder of the given name: `None`
/// when the input holds a malformed or incomplete sequence.
pub uninterp spec fn strict_decode(codec: Seq<char>, bytes: Seq<u8>) -> Option<Seq<char>>;

/// The decoder name that statistical detection guesses for a byte string.
pub uninterp spec fn statistical_guess(bytes: Seq<u8>) -> Seq<char>;

/// Looks the decoder up with `encoding_rs::Encoding::for_label` and decodes
/// with `decode_without_bom_handling_and_without_replacement`, which treats
/// malformed sequences as fatal and never substitutes U+FFFD. The result is
/// named `strict_decode`; for UTF-8 the documentation makes it exactly the
/// standard UTF-8 decoding of valid input.
#[verifier::external_body]
fn decode_without_replacement(codec: &str, bytes: &[u8]) -> (r: Option<String>)
    ensures
        r matches Some(t) ==> strict_decode(codec@, bytes@) == Some(t@),
        r is None ==> strict_decode(codec@, bytes@) is None,
        codec@ == "UTF-8"@ ==> (r is Some <==> valid_utf8(bytes@)),
        codec@ == "UTF-8"@ && r is Some ==> r->0@ == decode_utf8(bytes@),
{
    match encoding_rs::Encoding::for_label(codec.as_bytes()) {
        Some(decoder) => match decoder.decode_without_bom_handling_and_without_replacement(bytes) {
            Some(text) => Some(text.into_owned()),
            None => None,
        },
        None => None,
    }
}

/// Runs `chardetng::EncodingDetector` over the whole input (ISO-2022-JP and
/// UTF-8 allowed as guesses, no top-level domain hint) and returns the
/// guessed decoder's `encoding_rs` name. The guess is named `statistical_guess`.
#[verifier::external_body]
fn guess_codec_name(bytes: &[u8]) -> (r: &'static str)
    ensures
        r@ == statistical_guess(bytes@),
{
    let mut detector = chardetng::EncodingDetector::new(chardetng::Iso2022JpDetection::Allow);
    detector.feed(bytes, true);
    detector.guess(None, chardetng::Utf8Detection::Allow).name()
}

/// Calls `std::str::from_utf8`, which succeeds exactly on valid UTF-8.
#[verifier::external_body]
fn is_valid_utf8(bytes: &[u8]) -> (r: bool)
    ensures
        r == valid_utf8(bytes@),
{
    std::str::from_utf8(bytes).is_ok()
}

/// The byte-order marks `encoding_rs` recognises.
#[derive(Clone, Copy, Debug, PartialEq, Eq, Structural)]
pub enum Bom {
    Utf8,
    Utf16Le,
    Utf16Be,
}

pub open spec fn bom_len(b: Bom) -> int {
    match b {
        Bom::Utf8 => 3,
        _ => 2,
    }
}

/// The byte-order mark a byte string starts with (`Encoding::for_bom`).
pub open spec fn bom_of(bytes: Seq<u8>) -> Option<Bom> {
    if bytes.len() >= 3 && bytes[0] == 0xef && bytes[1] == 0xbb && bytes[2] == 0xbf {
        Some(Bom::Utf8)
    } else if bytes.len() >= 2 && bytes[0] == 0xff && bytes[1] == 0xfe {
        Some(Bom::Utf16Le)
    } else if bytes.len() >= 2 && bytes[0] == 0xfe && bytes[1] == 0xff {
        Some(Bom::Utf16Be)
    } else {
        None
    }
}

/// The byte-order mark whose decoder an encoding uses, if any.
pub open spec fn codec_bom(e: Encoding) -> Option<Bom> {
    match e {
        Encoding::Utf8 | Encoding::Utf8Bom => Some(Bom::Utf8),
        Encoding::Utf16Le => Some(Bom::Utf16Le),
        Encoding::Utf16Be => Some(Bom::Utf16Be),
        _ => None,
    }
}

/// The encoding a byte-order mark identifies.
pub open spec fn bom_encoding(b: Bom) -> Encoding {
    match b {
        Bom::Utf8 => Encoding::Utf8Bom,
        Bom::Utf16Le => Encoding::Utf16Le,
        Bom::Utf16Be => Encoding::Utf16Be,
    }
}

fn detect_bom(bytes: &[u8]) -> (r: Option<Bom>)
    ensures
        r == bom_of(bytes@),
{
    let n = bytes.len();
    if n >= 3 && bytes[0] == 0xef && bytes[1] == 0xbb && bytes[2] == 0xbf {
        Some(Bom::Utf8)
    } else if n >= 2 && bytes[0] == 0xff && bytes[1] == 0xfe {
        Some(Bom::Utf16Le)
    } else if n >= 2 && bytes[0] == 0xfe && bytes[1] == 0xff {
        Some(Bom::Utf16Be)
    } else {
        None
    }
}

pub open spec fn bom_mismatch_detail() -> Seq<char> {
    "文件 BOM 与所选编码不符，请选择自动识别或匹配的编码"@
}

pub open spec fn malformed_detail() -> Seq<char> {
    "包含无效或不完整的字节序列，请检查编码或原文件"@
}

pub open spec fn utf32_detail() -> Seq<char> {
    "暂不支持 UTF-32，请先转换为 UTF-8"@
}

pub open spec fn nul_detail() -> Seq<char> {
    "文件包含 NUL 字节；若为无 BOM 的 UTF-16，请手动选择 UTF-16 LE 或 BE 并检查预览"@
}

pub open spec fn unsupported_detail(name: Seq<char>) -> Seq<char> {
    "暂不支持 "@ + name + "，请先转换为 UTF-8"@
}

/// The bytes after a byte-order mark that belongs to the chosen encoding,
/// whether one was removed, or `None` when the mark belongs to another encoding.
pub open spec fn decode_body(bytes: Seq<u8>, e: Encoding) -> Option<(Seq<u8>, bool)> {
    match bom_of(bytes) {
        Some(b) => if codec_bom(e) == Some(b) {
            Some((bytes.skip(bom_len(b)), true))
        } else {
            None
        },
        None => Some((bytes, false)),
    }
}

/// Strict decoding: a byte-order mark is removed only when it belongs to the
/// chosen encoding, any other mark is an error, and malformed sequences are
/// never replaced.
pub fn decode_bytes(bytes: &[u8], encoding: Encoding) -> (r: Result<DecodedText, CoreError>)
    ensures
        match decode_body(bytes@, encoding) {
            None => r matches Err(CoreError::Decode { encoding: e, detail })
                && e == encoding && detail@ == bom_mismatch_detail(),
            Some((body, had_bom)) => match strict_decode(spec_codec_name(encoding), body) {
                None => r matches Err(CoreError::Decode { encoding: e, detail })
                    && e == encoding && detail@ == malformed_detail(),
                Some(text) => r matches Ok(d) && d.text@ == text && d.encoding == encoding
                    && d.had_bom == had_bom,
            },
        },
        encoding == Encoding::Utf8 ==> match decode_body(bytes@, encoding) {
            Some((body, _)) => (r is Ok <==> valid_utf8(body)) && (r matches Ok(d) ==> d.text@ == decode_utf8(body)),
            None => true,
        },
{
    let (body, had_bom): (&[u8], bool) = match detect_bom(bytes) {
        Some(b) => {
            let matches = match (encoding, b) {
                (Encoding::Utf8, Bom::Utf8) | (Encoding::Utf8Bom, Bom::Utf8) => true,
                (Encoding::Utf16Le, Bom::Utf16Le) => true,
                (Encoding::Utf16Be, Bom::Utf16Be) => true,
                _ => false,
            };
            if !matches {
                return Err(CoreError::Decode {
                    encoding,
                    detail: "文件 BOM 与所选编码不符，请选择自动识别或匹配的编码".to_owned(),
                });
            }
            let length: usize = match b {
                Bom::Utf8 => 3,
                _ => 2,
            };
            (slice_skip(bytes, length), true)
        },
        None => (bytes, false),
    };
    match decode_without_replacement(encoding.codec_name(), body) {
        Some(text) => Ok(DecodedText { text, encoding, had_bom }),
        None => Err(CoreError::Decode {
            encoding,
            detail: "包含无效或不完整的字节序列，请检查编码或原文件".to_owned(),
        }),
    }
}

/// `&s[n..]`.
fn slice_skip(s: &[u8], n: usize) -> (r: &[u8])
    requires
        n <= s@.len(),
    ensures
        r@ == s@.skip(n as int),
{
    let (_, rest) = s.split_at(n);
    rest
}

fn contains_byte(bytes: &[u8], b: u8) -> (r: bool)
    ensures
        r == bytes@.contains(b),
{
    let mut i: usize = 0;
    while i < bytes.len()
        invariant
            0 <= i <= bytes@.len(),
            forall|j: int| 0 <= j < i ==> bytes@[j] != b,
        decreases bytes@.len() - i,
    {
        if bytes[i] == b {
            assert(bytes@[i as int] == b);
            return true;
        }
        i += 1;
    }
    false
}

pub open spec fn starts_with(bytes: Seq<u8>, prefix: Seq<u8>) -> bool {
    prefix.len() <= bytes.len() && bytes.take(prefix.len() as int) == prefix
}

/// Byte strings that begin with a UTF-32 byte-order mark.
pub open spec fn utf32_bom(bytes: Seq<u8>) -> bool {
    starts_with(bytes, seq![0xffu8, 0xfeu8, 0u8, 0u8]) || starts_with(bytes, seq![0u8, 0u8, 0xfeu8, 0xffu8])
}

/// What detection decides for a byte string.
pub open spec fn spec_detect(bytes: Seq<u8>) -> Result<(Encoding, EncodingDetection), Seq<char>> {
    if utf32_bom(bytes) {
        Err(utf32_detail())
    } else if bom_of(bytes) is Some {
        Ok((bom_encoding(bom_of(bytes)->0), EncodingDetection::Bom))
    } else if bytes.contains(0) {
        Err(nul_detail())
    } else if !bytes.contains(0x1b) && valid_utf8(bytes) {
        Ok((Encoding::Utf8, EncodingDetection::Utf8))
    } else {
        match spec_from_codec_name(statistical_guess(bytes)) {
            None => Err(unsupported_detail(statistical_guess(bytes))),
            Some(e) => Ok((e, if e == Encoding::Utf8 {
                EncodingDetection::Utf8
            } else {
                EncodingDetection::Statistical
            })),
        }
    }
}

/// Detects an encoding: UTF-32 is refused, a byte-order mark decides,
/// NUL bytes are refused, valid UTF-8 without escape bytes is UTF-8, and
/// otherwise the statistical guess is taken when it is a supported encoding.
pub fn detect_encoding(bytes: &[u8]) -> (r: Result<(Encoding, EncodingDetection), CoreError>)
    ensures
        match spec_detect(bytes@) {
            Ok(v) => r == Ok::<(Encoding, EncodingDetection), CoreError>(v),
            Err(msg) => r matches Err(CoreError::EncodingDetection(m)) && m@ == msg,
        },
{
    let n = bytes.len();
    let utf32_le = n >= 4 && bytes[0] == 0xff && bytes[1] == 0xfe && bytes[2] == 0 && bytes[3] == 0;
    let utf32_be = n >= 4 && bytes[0] == 0 && bytes[1] == 0 && bytes[2] == 0xfe && bytes[3] == 0xff;
    assert(utf32_le == starts_with(bytes@, seq![0xffu8, 0xfeu8, 0u8, 0u8])) by {
        if n >= 4 {
            assert(bytes@.take(4) =~= seq![bytes@[0], bytes@[1], bytes@[2], bytes@[3]]);
        }
    }
    assert(utf32_be == starts_with(bytes@, seq![0u8, 0u8, 0xfeu8, 0xffu8])) by {
        if n >= 4 {
            assert(bytes@.take(4) =~= seq![bytes@[0], bytes@[1], bytes@[2], bytes@[3]]);
        }
    }
    if utf32_le || utf32_be {
        return Err(CoreError::EncodingDetection("暂不支持 UTF-32，请先转换为 UTF-8".to_owned()));
    }
    match detect_bom(bytes) {
        Some(Bom::Utf8) => return Ok((Encoding::Utf8Bom, EncodingDetection::Bom)),
        Some(Bom::Utf16Le) => return Ok((Encoding::Utf16Le, EncodingDetection::Bom)),
        Some(Bom::Utf16Be) => return Ok((Encoding::Utf16Be, EncodingDetection::Bom)),
        None => {},
    }
    if contains_byte(bytes, 0) {
        return Err(CoreError::EncodingDetection(
            "文件包含 NUL 字节；若为无 BOM 的 UTF-16，请手动选择 UTF-16 LE 或 BE 并检查预览".to_owned(),
        ));
    }
    if !contains_byte(bytes, 0x1b) && is_valid_utf8(bytes) {
        return Ok((Encoding::Utf8, EncodingDetection::Utf8));
    }
    let name = guess_codec_name(bytes);
    match Encoding::from_codec_name(name) {
        None => {
            let mut detail = "暂不支持 ".to_owned();
            append_str(&mut detail, name);
            append_str(&mut detail, "，请先转换为 UTF-8");
            Err(CoreError::EncodingDetection(detail))
        },
        Some(encoding) => {
            let method = match encoding {
                Encoding::Utf8 => EncodingDetection::Utf8,
                _ => EncodingDetection::Statistical,
            };
            Ok((encoding, method))
        },
    }
}

/// Text written as UTF-8 reads back unchanged, with no mark removed, when it
/// is decoded as UTF-8, unless it begins with U+FEFF (which reads as a
/// byte-order mark).
pub proof fn utf8_round_trip(text: Seq<char>)
    requires
        text.len() == 0 || text[0] != '\u{feff}',
    ensures
        decode_body(vstd::utf8::encode_utf8(text), Encoding::Utf8) == Some((vstd::utf8::encode_utf8(text), false)),
        valid_utf8(vstd::utf8::encode_utf8(text)),
        decode_utf8(vstd::utf8::encode_utf8(text)) == text,
{
    let b = vstd::utf8::encode_utf8(text);
    vstd::utf8::encode_utf8_valid_utf8(text);
    vstd::utf8::encode_utf8_decode_utf8(text);
    if text.len() > 0 {
        vstd::utf8::encode_utf8_first_scalar(text);
        assert(b.len() > 0);
        if b.len() >= 3 && b[0] == 0xef && b[1] == 0xbb && b[2] == 0xbf {
            assert(vstd::utf8::codepoint_width_3(0xef, 0xbb, 0xbf) == 0xfeff) by (bit_vector);
            assert(vstd::utf8::decode_first_scalar(b) == 0xfeff);
            vstd::utf8::char_u32_cast(text[0], 0xfeff);
            assert(('\u{feff}' as u32) == 0xfeff);
            vstd::utf8::char_u32_cast('\u{feff}', 0xfeff);
            assert(false);
        }
    }
    assert(bom_of(b) is None);
}

} // verus!
