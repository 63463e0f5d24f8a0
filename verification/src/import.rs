//! Import profiles and previews; decoding and segmentation are separate primitives.
use vstd::prelude::*;

pub mod cleanup;
pub mod encoding;
pub mod decode;
pub mod segmentation;

verus! {

/// How a concrete encoding was chosen.
#[derive(Clone, Copy, Debug, PartialEq, Eq, Structural)]
pub enum EncodingDetection {
    Manual,
    Bom,
    Utf8,
    Statistical,
    UnicodeText,
}

impl Default for EncodingDetection {
    fn default() -> (r: Self)
        ensures r == EncodingDetection::Manual,
    {
        EncodingDetection::Manual
    }
}

/// How a text is decoded, segmented and cleaned on import.
#[derive(Clone, Debug, PartialEq, Eq)]
pub struct ImportProfile {
    pub encoding: crate::import::encoding::Encoding,
    pub segmentation_mode: SegmentationMode,
    pub strip_seg_wrappers: bool,
    pub strip_pos_suffixes: bool,
    pub compact_cjk_interchar_spaces: bool,
}

impl ImportProfile {
    /// A profile whose legacy cleanups are on exactly for legacy tagged lines.
    pub fn new(encoding: crate::import::encoding::Encoding, segmentation_mode: SegmentationMode) -> (r: Self)
        ensures
            r.encoding == encoding,
            r.segmentation_mode == segmentation_mode,
            r.strip_seg_wrappers == (segmentation_mode == SegmentationMode::LegacyTaggedLine),
            r.strip_pos_suffixes == (segmentation_mode == SegmentationMode::LegacyTaggedLine),
            r.compact_cjk_interchar_spaces == (segmentation_mode == SegmentationMode::LegacyTaggedLine),
    {
        let legacy = match segmentation_mode {
            SegmentationMode::LegacyTaggedLine => true,
            _ => false,
        };
        ImportProfile {
            encoding,
            segmentation_mode,
            strip_seg_wrappers: legacy,
            strip_pos_suffixes: legacy,
            compact_cjk_interchar_spaces: legacy,
        }
    }
}

/// How a text is cut into segments.
#[derive(Clone, Copy, Debug, PartialEq, Eq, Structural)]
pub enum SegmentationMode {
    NonEmptyLine,
    SentenceRules,
    LegacyTaggedLine,
}

/// Why a preview segment ends where it does.
#[derive(Clone, Copy, Debug, PartialEq, Eq, Structural)]
pub enum SegmentBoundary {
    NonEmptyLine,
    SentencePunctuation,
    TextEnd,
}

/// A cleanup stage that changed a fragment.
#[derive(Clone, Copy, Debug, PartialEq, Eq, Structural)]
pub enum ImportCleanup {
    SegWrappers,
    PosSuffixesAndWhitespace,
    CjkSpaces,
    PunctuationSpaces,
}

/// One previewed segment: its cleaned content, the trimmed fragment it came
/// from, and why and how it was cut and cleaned.
#[derive(Clone, Debug, PartialEq, Eq)]
pub struct SegmentPreview {
    pub ordinal: usize,
    pub content: String,
    pub original_text: String,
    pub boundary: SegmentBoundary,
    pub boundary_marker: Option<char>,
    pub cleanups: Vec<ImportCleanup>,
}

/// The previewed segments, their contents joined by newlines, and warnings.
#[derive(Clone, Debug, PartialEq, Eq)]
pub struct SegmentationPreview {
    pub segments: Vec<SegmentPreview>,
    pub cleaned_text: String,
    pub warnings: Vec<String>,
}

} // verus!
