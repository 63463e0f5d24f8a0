//! Canonical segment content and identity-preserving edits.
use vstd::prelude::*;
use crate::ids::{DocumentId, RevisionId, SegmentId};
use crate::strings::push_char;

verus! {

/// Where the segment's content is materialised by storage.
#[derive(Clone, Debug, PartialEq, Eq)]
pub struct ContentRef {
    pub key: String,
}

#[derive(Clone, Copy, Debug, PartialEq, Eq, Structural)]
pub enum SegmentKind {
    Sentence,
}

#[derive(Clone, Debug, PartialEq, Eq)]
pub struct Segment {
    pub segment_id: SegmentId,
    pub document_id: DocumentId,
    pub kind: SegmentKind,
    pub content_ref: ContentRef,
    pub content: String,
    pub content_hash: String,
    pub created_revision_id: RevisionId,
    pub updated_revision_id: RevisionId,
}

pub open spec fn fnv_offset_basis() -> u64 { 0xcbf29ce484222325 }
pub open spec fn fnv_prime() -> u64 { 0x100000001b3 }

/// 64-bit FNV-1a over a byte sequence.
pub open spec fn fnv1a(bytes: Seq<u8>) -> u64
    decreases bytes.len(),
{
    if bytes.len() == 0 {
        fnv_offset_basis()
    } else {
        vstd::wrapping::u64_specs::wrapping_mul(
            fnv1a(bytes.drop_last()) ^ (bytes.last() as u64),
            fnv_prime(),
        )
    }
}

/// Lower-case hexadecimal digit of a nibble.
pub open spec fn hex_digit(d: u64) -> char {
    if d < 10 { (d + 48) as char } else { (d + 87) as char }
}

/// The sixteen lower-case hexadecimal digits of a 64-bit value, most significant first.
pub open spec fn hex16(h: u64) -> Seq<char> {
    Seq::new(16, |i: int| hex_digit((h >> ((60 - 4 * i) as u64)) & 0xf))
}

/// The content hash of a text: FNV-1a over its UTF-8 bytes, as 16 hex digits.
pub open spec fn spec_content_hash(text: Seq<char>) -> Seq<char> {
    hex16(fnv1a(vstd::utf8::encode_utf8(text)))
}

fn hex_char(d: u64) -> (c: char)
    requires d < 16,
    ensures c == hex_digit(d),
{
    if d < 10 {
        ((d as u8) + 48) as char
    } else {
        ((d as u8) + 87) as char
    }
}

/// FNV-1a is dependency-free at this layer; storage may add a cryptographic
/// digest when it materialises content chunks.
fn content_hash(value: &str) -> (r: String)
    ensures
        r@ == spec_content_hash(value@),
{
    let bytes = value.as_bytes();
    let mut hash: u64 = 0xcbf29ce484222325;
    let mut i: usize = 0;
    while i < bytes.len()
        invariant
            0 <= i <= bytes@.len(),
            bytes@ == vstd::utf8::encode_utf8(value@),
            hash == fnv1a(bytes@.take(i as int)),
        decreases bytes@.len() - i,
    {
        assert(bytes@.take(i as int + 1).drop_last() == bytes@.take(i as int));
        hash = (hash ^ (bytes[i] as u64)).wrapping_mul(0x100000001b3);
        i += 1;
    }
    assert(bytes@.take(bytes@.len() as int) == bytes@);
    let mut out = String::new();
    let mut k: u64 = 0;
    while k < 16
        invariant
            0 <= k <= 16,
            out@.len() == k,
            forall|j: int| 0 <= j < k ==> out@[j] == hex16(hash)[j],
        decreases 16 - k,
    {
        let shift: u64 = 60 - 4 * k;
        let d = (hash >> shift) & 0xf;
        assert(d < 16) by (bit_vector)
            requires d == (hash >> shift) & 0xf;
        push_char(&mut out, hex_char(d));
        k += 1;
    }
    assert(out@ == hex16(hash));
    out
}

impl Segment {
    /// A new sentence segment with a fresh identity, created and updated at `revision`.
    pub fn new(document_id: DocumentId, content: String, revision: RevisionId) -> (r: Self)
        ensures
            r.document_id == document_id,
            r.kind == SegmentKind::Sentence,
            r.content_ref.key@ == Seq::<char>::empty(),
            r.content@ == content@,
            r.content_hash@ == spec_content_hash(content@),
            r.created_revision_id == revision,
            r.updated_revision_id == revision,
    {
        let content_hash = content_hash(content.as_str());
        Segment {
            segment_id: SegmentId::new(),
            document_id,
            kind: SegmentKind::Sentence,
            content_ref: ContentRef { key: String::new() },
            content_hash,
            content,
            created_revision_id: revision,
            updated_revision_id: revision,
        }
    }

    /// Replaces the content, keeping the segment's identity, document, kind,
    /// storage reference and creation revision.
    pub fn update_content(&mut self, content: String, revision: RevisionId)
        ensures
            final(self).content@ == content@,
            final(self).content_hash@ == spec_content_hash(content@),
            final(self).updated_revision_id == revision,
            final(self).segment_id == old(self).segment_id,
            final(self).document_id == old(self).document_id,
            final(self).kind == old(self).kind,
            final(self).content_ref == old(self).content_ref,
            final(self).created_revision_id == old(self).created_revision_id,
    {
        self.content_hash = content_hash(content.as_str());
        self.content = content;
        self.updated_revision_id = revision;
    }
}

} // verus!
