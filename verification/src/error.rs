//! Errors raised by deterministic domain and import validation.
use vstd::prelude::*;
use crate::import::encoding::Encoding;

verus! {

#[derive(Clone, Debug, PartialEq, Eq)]
pub enum CoreError {
    /// The text is not valid in the selected encoding.
    Decode { encoding: Encoding, detail: String },
    /// No supported encoding could be detected.
    EncodingDetection(String),
    UnsupportedGb18030,
    /// An alignment needs at least one segment on each side.
    EmptyAlignment,
    /// An alignment names a segment twice on one side.
    DuplicateAlignmentReference,
    /// A segment order has duplicate, missing or unordered entries.
    InvalidSegmentOrder,
    /// A segment belongs to another document.
    WrongDocument,
    /// An alignment names a segment of the wrong project or document.
    InvalidAlignmentReference,
    /// A project has duplicate or missing document references.
    InvalidProject,
}

/// The human-readable description of an error.
pub open spec fn spec_message(e: CoreError) -> Seq<char> {
    match e {
        CoreError::Decode { detail, .. } => "text is not valid in the selected encoding: "@ + detail@,
        CoreError::EncodingDetection(detail) => detail@,
        CoreError::UnsupportedGb18030 => "GB18030 decoding is unavailable on this platform"@,
        CoreError::EmptyAlignment => "alignment must contain at least one segment on each side"@,
        CoreError::DuplicateAlignmentReference => "an alignment contains duplicate segment references"@,
        CoreError::InvalidSegmentOrder => "segment order has duplicate or missing segment references"@,
        CoreError::WrongDocument => "segment belongs to the wrong document"@,
        CoreError::InvalidAlignmentReference => "alignment contains a segment from the wrong project/document"@,
        CoreError::InvalidProject => "project contains duplicate or missing document references"@,
    }
}

impl CoreError {
    /// The human-readable description of the error.
    pub fn message(&self) -> (r: String)
        ensures
            r@ == spec_message(*self),
    {
        match self {
            CoreError::Decode { detail, .. } => {
                let mut s = "text is not valid in the selected encoding: ".to_owned();
                crate::strings::append_str(&mut s, detail.as_str());
                s
            },
            CoreError::EncodingDetection(detail) => detail.clone(),
            CoreError::UnsupportedGb18030 => "GB18030 decoding is unavailable on this platform".to_owned(),
            CoreError::EmptyAlignment => "alignment must contain at least one segment on each side".to_owned(),
            CoreError::DuplicateAlignmentReference => "an alignment contains duplicate segment references".to_owned(),
            CoreError::InvalidSegmentOrder => "segment order has duplicate or missing segment references".to_owned(),
            CoreError::WrongDocument => "segment belongs to the wrong document".to_owned(),
            CoreError::InvalidAlignmentReference => "alignment contains a segment from the wrong project/document".to_owned(),
            CoreError::InvalidProject => "project contains duplicate or missing document references".to_owned(),
        }
    }
}

} // verus!
