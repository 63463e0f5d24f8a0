//! Stable opaque identity. Every identifier is a 128-bit value; revision
//! identifiers are plain counters.
use vstd::prelude::*;
use vstd::std_specs::convert::FromSpec;

verus! {

/// The 128 bits of a version-7 UUID in the RFC 9562 layout: the version
/// nibble (bits 76 to 79, counted from the least significant) is 7 and the
/// variant bits (62 and 63) are `10`.
pub open spec fn is_uuid_v7(v: u128) -> bool {
    (v >> 76u128) & 0xf == 7 && (v >> 62u128) & 0x3 == 2
}

/// Draws a fresh version-7 UUID and returns its 128 bits.
///
/// Calls `uuid::Uuid::now_v7` and `Uuid::as_u128`; `now_v7` always writes the
/// version 7 nibble and the RFC 9562 variant bits, which is all that is
/// promised. The remaining bits depend on the clock and on a random source
/// and are left unsaid.
#[verifier::external_body]
fn fresh_uuid_v7() -> (r: u128)
    ensures
        is_uuid_v7(r),
{
    uuid::Uuid::now_v7().as_u128()
}

/// The 128 bits of an identifier text, as `uuid::Uuid::parse_str` reads it
/// (simple, hyphenated, URN or braced form), or `None` when it reads none.
pub uninterp spec fn uuid_parse(text: Seq<char>) -> Option<u128>;

/// Parses an identifier text with `uuid::Uuid::parse_str` and takes the
/// parsed value's 128 bits; the result is what `uuid_parse` names.
#[verifier::external_body]
pub(crate) fn parse_uuid(text: &str) -> (r: Option<u128>)
    ensures
        r == uuid_parse(text@),
{
    match uuid::Uuid::parse_str(text) {
        Ok(u) => Some(u.as_u128()),
        Err(_) => None,
    }
}

/// Identity of a project.
#[derive(Clone, Copy, Debug, PartialEq, Eq, Hash, PartialOrd, Ord, Structural)]
pub struct ProjectId(u128);

/// Identity of a document inside a project.
#[derive(Clone, Copy, Debug, PartialEq, Eq, Hash, PartialOrd, Ord, Structural)]
pub struct DocumentId(u128);

/// Identity of an imported source asset.
#[derive(Clone, Copy, Debug, PartialEq, Eq, Hash, PartialOrd, Ord, Structural)]
pub struct AssetId(u128);

/// Identity of a segment; it survives reordering and content edits.
#[derive(Clone, Copy, Debug, PartialEq, Eq, Hash, PartialOrd, Ord, Structural)]
pub struct SegmentId(u128);

/// Identity of a document's display order.
#[derive(Clone, Copy, Debug, PartialEq, Eq, Hash, PartialOrd, Ord, Structural)]
pub struct SegmentOrderId(u128);

/// Identity of an alignment relation.
#[derive(Clone, Copy, Debug, PartialEq, Eq, Hash, PartialOrd, Ord, Structural)]
pub struct AlignmentId(u128);

/// Identity of an annotation.
#[derive(Clone, Copy, Debug, PartialEq, Eq, Hash, PartialOrd, Ord, Structural)]
pub struct AnnotationId(u128);

/// Identity of a bookmark.
#[derive(Clone, Copy, Debug, PartialEq, Eq, Hash, PartialOrd, Ord, Structural)]
pub struct BookmarkId(u128);

/// Identity of an operation.
#[derive(Clone, Copy, Debug, PartialEq, Eq, Hash, PartialOrd, Ord, Structural)]
pub struct OperationId(u128);

/// Identity of a command.
#[derive(Clone, Copy, Debug, PartialEq, Eq, Hash, PartialOrd, Ord, Structural)]
pub struct CommandId(u128);

impl ProjectId {
    pub closed spec fn value(self) -> u128 { self.0 }
    /// A fresh time-ordered identifier: a version-7 UUID.
    pub fn new() -> (r: Self)
        ensures
            is_uuid_v7(r.value()),
    {
        ProjectId(fresh_uuid_v7())
    }
    pub fn from_u128(value: u128) -> (r: Self) ensures r.value() == value, { ProjectId(value) }
    pub fn as_u128(&self) -> (r: u128) ensures r == self.value(), { self.0 }
}

impl DocumentId {
    pub closed spec fn value(self) -> u128 { self.0 }
    /// A fresh time-ordered identifier: a version-7 UUID.
    pub fn new() -> (r: Self)
        ensures
            is_uuid_v7(r.value()),
    {
        DocumentId(fresh_uuid_v7())
    }
    pub fn from_u128(value: u128) -> (r: Self) ensures r.value() == value, { DocumentId(value) }
    pub fn as_u128(&self) -> (r: u128) ensures r == self.value(), { self.0 }
}

impl AssetId {
    pub closed spec fn value(self) -> u128 { self.0 }
    /// A fresh time-ordered identifier: a version-7 UUID.
    pub fn new() -> (r: Self)
        ensures
            is_uuid_v7(r.value()),
    {
        AssetId(fresh_uuid_v7())
    }
    pub fn from_u128(value: u128) -> (r: Self) ensures r.value() == value, { AssetId(value) }
    pub fn as_u128(&self) -> (r: u128) ensures r == self.value(), { self.0 }
}

impl SegmentId {
    pub closed spec fn value(self) -> u128 { self.0 }
    /// A fresh time-ordered identifier: a version-7 UUID.
    pub fn new() -> (r: Self)
        ensures
            is_uuid_v7(r.value()),
    {
        SegmentId(fresh_uuid_v7())
    }
    pub fn from_u128(value: u128) -> (r: Self) ensures r.value() == value, { SegmentId(value) }
    pub fn as_u128(&self) -> (r: u128) ensures r == self.value(), { self.0 }
}

impl SegmentOrderId {
    pub closed spec fn value(self) -> u128 { self.0 }
    /// A fresh time-ordered identifier: a version-7 UUID.
    pub fn new() -> (r: Self)
        ensures
            is_uuid_v7(r.value()),
    {
        SegmentOrderId(fresh_uuid_v7())
    }
    pub fn from_u128(value: u128) -> (r: Self) ensures r.value() == value, { SegmentOrderId(value) }
    pub fn as_u128(&self) -> (r: u128) ensures r == self.value(), { self.0 }
}

impl AlignmentId {
    pub closed spec fn value(self) -> u128 { self.0 }
    /// A fresh time-ordered identifier: a version-7 UUID.
    pub fn new() -> (r: Self)
        ensures
            is_uuid_v7(r.value()),
    {
        AlignmentId(fresh_uuid_v7())
    }
    pub fn from_u128(value: u128) -> (r: Self) ensures r.value() == value, { AlignmentId(value) }
    pub fn as_u128(&self) -> (r: u128) ensures r == self.value(), { self.0 }
}

impl AnnotationId {
    pub closed spec fn value(self) -> u128 { self.0 }
    /// A fresh time-ordered identifier: a version-7 UUID.
    pub fn new() -> (r: Self)
        ensures
            is_uuid_v7(r.value()),
    {
        AnnotationId(fresh_uuid_v7())
    }
    pub fn from_u128(value: u128) -> (r: Self) ensures r.value() == value, { AnnotationId(value) }
    pub fn as_u128(&self) -> (r: u128) ensures r == self.value(), { self.0 }
}

impl BookmarkId {
    pub closed spec fn value(self) -> u128 { self.0 }
    /// A fresh time-ordered identifier: a version-7 UUID.
    pub fn new() -> (r: Self)
        ensures
            is_uuid_v7(r.value()),
    {
        BookmarkId(fresh_uuid_v7())
    }
    pub fn from_u128(value: u128) -> (r: Self) ensures r.value() == value, { BookmarkId(value) }
    pub fn as_u128(&self) -> (r: u128) ensures r == self.value(), { self.0 }
}

impl OperationId {
    pub closed spec fn value(self) -> u128 { self.0 }
    /// A fresh time-ordered identifier: a version-7 UUID.
    pub fn new() -> (r: Self)
        ensures
            is_uuid_v7(r.value()),
    {
        OperationId(fresh_uuid_v7())
    }
    pub fn from_u128(value: u128) -> (r: Self) ensures r.value() == value, { OperationId(value) }
    pub fn as_u128(&self) -> (r: u128) ensures r == self.value(), { self.0 }
}

impl CommandId {
    pub closed spec fn value(self) -> u128 { self.0 }
    /// A fresh time-ordered identifier: a version-7 UUID.
    pub fn new() -> (r: Self)
        ensures
            is_uuid_v7(r.value()),
    {
        CommandId(fresh_uuid_v7())
    }
    pub fn from_u128(value: u128) -> (r: Self) ensures r.value() == value, { CommandId(value) }
    pub fn as_u128(&self) -> (r: u128) ensures r == self.value(), { self.0 }
}

/// Lower-case hexadecimal digit of a nibble.
pub open spec fn hex_digit128(d: u128) -> char {
    if d < 10 { (d + 48) as char } else { (d + 87) as char }
}

/// The `i`-th of the 32 hexadecimal digits of a 128-bit value, most significant first.
pub open spec fn nibble(v: u128, i: int) -> u128 {
    (v >> ((124 - 4 * i) as u128)) & 0xf
}

/// The first `k` hexadecimal digits of `v` in the hyphenated UUID layout,
/// with a hyphen in front of digits 8, 12, 16 and 20.
pub open spec fn dashed_hex(v: u128, k: nat) -> Seq<char>
    decreases k,
{
    if k == 0 {
        Seq::empty()
    } else {
        let i = k - 1;
        let d = seq![hex_digit128(nibble(v, i))];
        dashed_hex(v, (k - 1) as nat) + if i == 8 || i == 12 || i == 16 || i == 20 { seq!['-'] + d } else { d }
    }
}

/// The hyphenated lower-case text of a 128-bit identifier, as UUIDs print.
pub open spec fn spec_uuid_text(v: u128) -> Seq<char> {
    dashed_hex(v, 32)
}

/// The hyphenated lower-case text of a 128-bit identifier.
pub fn uuid_text(v: u128) -> (r: String)
    ensures
        r@ == spec_uuid_text(v),
{
    let mut out = String::new();
    let mut k: u128 = 0;
    while k < 32
        invariant
            0 <= k <= 32,
            out@ == dashed_hex(v, k as nat),
        decreases 32 - k,
    {
        if k == 8 || k == 12 || k == 16 || k == 20 {
            crate::strings::push_char(&mut out, '-');
        }
        let shift: u128 = 124 - 4 * k;
        let d = (v >> shift) & 0xf;
        assert(d < 16) by (bit_vector)
            requires d == (v >> shift) & 0xf;
        let c = if d < 10 { ((d as u8) + 48) as char } else { ((d as u8) + 87) as char };
        crate::strings::push_char(&mut out, c);
        proof {
            let ghost prev = dashed_hex(v, k as nat);
            assert(dashed_hex(v, (k + 1) as nat) == prev + if k == 8 || k == 12 || k == 16 || k == 20 { seq!['-'] + seq![c] } else { seq![c] });
        }
        assert(out@ =~= dashed_hex(v, (k + 1) as nat));
        k += 1;
    }
    out
}

impl OperationId {
    /// The identifier's hyphenated text.
    pub fn text(&self) -> (r: String)
        ensures
            r@ == spec_uuid_text(self.value()),
    {
        uuid_text(self.0)
    }
}

/// Revision identifiers are decimal strings on the wire so that JavaScript
/// never loses precision; in memory they are plain counters.
#[derive(Clone, Copy, Debug, PartialEq, Eq, Hash, PartialOrd, Ord, Structural)]
pub struct RevisionId(u64);

impl RevisionId {
    pub closed spec fn spec_value(self) -> u64 { self.0 }

    /// The revision identifier of a value.
    pub closed spec fn spec_new(value: u64) -> RevisionId { RevisionId(value) }

    pub fn new(value: u64) -> (r: Self)
        ensures
            r == RevisionId::spec_new(value),
            r.spec_value() == value,
    {
        RevisionId(value)
    }

    pub fn value(self) -> (r: u64)
        ensures r == self.spec_value(),
    {
        self.0
    }
}

impl ProjectId {
    /// Reads an identifier from its text, in any form `uuid::Uuid::parse_str` reads.
    pub fn parse(text: &str) -> (r: Option<Self>)
        ensures
            match uuid_parse(text@) {
                Some(v) => r matches Some(x) && x.value() == v,
                None => r is None,
            },
    {
        match parse_uuid(text) {
            Some(v) => Some(ProjectId(v)),
            None => None,
        }
    }

    /// The identifier's hyphenated text.
    pub fn text(&self) -> (r: String)
        ensures
            r@ == spec_uuid_text(self.value()),
    {
        uuid_text(self.0)
    }
}

impl Default for ProjectId {
    /// A fresh identifier, as `new` makes.
    fn default() -> (r: Self)
        ensures
            is_uuid_v7(r.value()),
    {
        ProjectId::new()
    }
}

impl DocumentId {
    /// Reads an identifier from its text, in any form `uuid::Uuid::parse_str` reads.
    pub fn parse(text: &str) -> (r: Option<Self>)
        ensures
            match uuid_parse(text@) {
                Some(v) => r matches Some(x) && x.value() == v,
                None => r is None,
            },
    {
        match parse_uuid(text) {
            Some(v) => Some(DocumentId(v)),
            None => None,
        }
    }

    /// The identifier's hyphenated text.
    pub fn text(&self) -> (r: String)
        ensures
            r@ == spec_uuid_text(self.value()),
    {
        uuid_text(self.0)
    }
}

impl Default for DocumentId {
    /// A fresh identifier, as `new` makes.
    fn default() -> (r: Self)
        ensures
            is_uuid_v7(r.value()),
    {
        DocumentId::new()
    }
}

impl AssetId {
    /// Reads an identifier from its text, in any form `uuid::Uuid::parse_str` reads.
    pub fn parse(text: &str) -> (r: Option<Self>)
        ensures
            match uuid_parse(text@) {
                Some(v) => r matches Some(x) && x.value() == v,
                None => r is None,
            },
    {
        match parse_uuid(text) {
            Some(v) => Some(AssetId(v)),
            None => None,
        }
    }

    /// The identifier's hyphenated text.
    pub fn text(&self) -> (r: String)
        ensures
            r@ == spec_uuid_text(self.value()),
    {
        uuid_text(self.0)
    }
}

impl Default for AssetId {
    /// A fresh identifier, as `new` makes.
    fn default() -> (r: Self)
        ensures
            is_uuid_v7(r.value()),
    {
        AssetId::new()
    }
}

impl SegmentId {
    /// Reads an identifier from its text, in any form `uuid::Uuid::parse_str` reads.
    pub fn parse(text: &str) -> (r: Option<Self>)
        ensures
            match uuid_parse(text@) {
                Some(v) => r matches Some(x) && x.value() == v,
                None => r is None,
            },
    {
        match parse_uuid(text) {
            Some(v) => Some(SegmentId(v)),
            None => None,
        }
    }

    /// The identifier's hyphenated text.
    pub fn text(&self) -> (r: String)
        ensures
            r@ == spec_uuid_text(self.value()),
    {
        uuid_text(self.0)
    }
}

impl Default for SegmentId {
    /// A fresh identifier, as `new` makes.
    fn default() -> (r: Self)
        ensures
            is_uuid_v7(r.value()),
    {
        SegmentId::new()
    }
}

impl SegmentOrderId {
    /// Reads an identifier from its text, in any form `uuid::Uuid::parse_str` reads.
    pub fn parse(text: &str) -> (r: Option<Self>)
        ensures
            match uuid_parse(text@) {
                Some(v) => r matches Some(x) && x.value() == v,
                None => r is None,
            },
    {
        match parse_uuid(text) {
            Some(v) => Some(SegmentOrderId(v)),
            None => None,
        }
    }

    /// The identifier's hyphenated text.
    pub fn text(&self) -> (r: String)
        ensures
            r@ == spec_uuid_text(self.value()),
    {
        uuid_text(self.0)
    }
}

impl Default for SegmentOrderId {
    /// A fresh identifier, as `new` makes.
    fn default() -> (r: Self)
        ensures
            is_uuid_v7(r.value()),
    {
        SegmentOrderId::new()
    }
}

impl AlignmentId {
    /// Reads an identifier from its text, in any form `uuid::Uuid::parse_str` reads.
    pub fn parse(text: &str) -> (r: Option<Self>)
        ensures
            match uuid_parse(text@) {
                Some(v) => r matches Some(x) && x.value() == v,
                None => r is None,
            },
    {
        match parse_uuid(text) {
            Some(v) => Some(AlignmentId(v)),
            None => None,
        }
    }

    /// The identifier's hyphenated text.
    pub fn text(&self) -> (r: String)
        ensures
            r@ == spec_uuid_text(self.value()),
    {
        uuid_text(self.0)
    }
}

impl Default for AlignmentId {
    /// A fresh identifier, as `new` makes.
    fn default() -> (r: Self)
        ensures
            is_uuid_v7(r.value()),
    {
        AlignmentId::new()
    }
}

impl AnnotationId {
    /// Reads an identifier from its text, in any form `uuid::Uuid::parse_str` reads.
    pub fn parse(text: &str) -> (r: Option<Self>)
        ensures
            match uuid_parse(text@) {
                Some(v) => r matches Some(x) && x.value() == v,
                None => r is None,
            },
    {
        match parse_uuid(text) {
            Some(v) => Some(AnnotationId(v)),
            None => None,
        }
    }

    /// The identifier's hyphenated text.
    pub fn text(&self) -> (r: String)
        ensures
            r@ == spec_uuid_text(self.value()),
    {
        uuid_text(self.0)
    }
}

impl Default for AnnotationId {
    /// A fresh identifier, as `new` makes.
    fn default() -> (r: Self)
        ensures
            is_uuid_v7(r.value()),
    {
        AnnotationId::new()
    }
}

impl BookmarkId {
    /// Reads an identifier from its text, in any form `uuid::Uuid::parse_str` reads.
    pub fn parse(text: &str) -> (r: Option<Self>)
        ensures
            match uuid_parse(text@) {
                Some(v) => r matches Some(x) && x.value() == v,
                None => r is None,
            },
    {
        match parse_uuid(text) {
            Some(v) => Some(BookmarkId(v)),
            None => None,
        }
    }

    /// The identifier's hyphenated text.
    pub fn text(&self) -> (r: String)
        ensures
            r@ == spec_uuid_text(self.value()),
    {
        uuid_text(self.0)
    }
}

impl Default for BookmarkId {
    /// A fresh identifier, as `new` makes.
    fn default() -> (r: Self)
        ensures
            is_uuid_v7(r.value()),
    {
        BookmarkId::new()
    }
}

impl OperationId {
    /// Reads an identifier from its text, in any form `uuid::Uuid::parse_str` reads.
    pub fn parse(text: &str) -> (r: Option<Self>)
        ensures
            match uuid_parse(text@) {
                Some(v) => r matches Some(x) && x.value() == v,
                None => r is None,
            },
    {
        match parse_uuid(text) {
            Some(v) => Some(OperationId(v)),
            None => None,
        }
    }
}

impl Default for OperationId {
    /// A fresh identifier, as `new` makes.
    fn default() -> (r: Self)
        ensures
            is_uuid_v7(r.value()),
    {
        OperationId::new()
    }
}

impl CommandId {
    /// Reads an identifier from its text, in any form `uuid::Uuid::parse_str` reads.
    pub fn parse(text: &str) -> (r: Option<Self>)
        ensures
            match uuid_parse(text@) {
                Some(v) => r matches Some(x) && x.value() == v,
                None => r is None,
            },
    {
        match parse_uuid(text) {
            Some(v) => Some(CommandId(v)),
            None => None,
        }
    }

    /// The identifier's hyphenated text.
    pub fn text(&self) -> (r: String)
        ensures
            r@ == spec_uuid_text(self.value()),
    {
        uuid_text(self.0)
    }
}

impl Default for CommandId {
    /// A fresh identifier, as `new` makes.
    fn default() -> (r: Self)
        ensures
            is_uuid_v7(r.value()),
    {
        CommandId::new()
    }
}

impl From<u64> for RevisionId {
    fn from(value: u64) -> (r: Self) {
        RevisionId(value)
    }
}

impl vstd::std_specs::convert::FromSpecImpl<u64> for RevisionId {
    open spec fn obeys_from_spec() -> bool {
        true
    }

    open spec fn from_spec(v: u64) -> Self {
        RevisionId::spec_new(v)
    }
}

impl Default for RevisionId {
    /// The revision before any other: zero.
    fn default() -> (r: Self)
        ensures
            r.spec_value() == 0,
    {
        RevisionId(0)
    }
}

/// The decimal digit character of `d < 10`.
pub open spec fn digit_char(d: nat) -> char {
    (d + 48) as char
}

/// The decimal text of a number, without leading zeros.
pub open spec fn decimal(n: nat) -> Seq<char>
    decreases n,
{
    if n < 10 {
        seq![digit_char(n)]
    } else {
        decimal(n / 10).push(digit_char(n % 10))
    }
}

pub open spec fn is_digit(c: char) -> bool {
    '0' <= c <= '9'
}

/// The number a string of decimal digits denotes.
pub open spec fn digits_value(s: Seq<char>) -> nat
    decreases s.len(),
{
    if s.len() == 0 {
        0
    } else {
        digits_value(s.drop_last()) * 10 + ((s.last() as nat) - 48) as nat
    }
}

/// The text after an optional leading `+`.
pub open spec fn unsigned_body(s: Seq<char>) -> Seq<char> {
    if s.len() > 0 && s[0] == '+' { s.drop_first() } else { s }
}

pub open spec fn all_digits(s: Seq<char>) -> bool {
    forall|i: int| 0 <= i < s.len() ==> is_digit(#[trigger] s[i])
}

/// What `str::parse::<u64>` reads: an optional `+`, then one or more ASCII
/// digits whose value fits in 64 bits.
pub open spec fn spec_parse_u64(s: Seq<char>) -> Option<u64> {
    let body = unsigned_body(s);
    if body.len() > 0 && all_digits(body) && digits_value(body) <= u64::MAX {
        Some(digits_value(body) as u64)
    } else {
        None
    }
}

proof fn lemma_decimal_digits(n: nat)
    ensures
        decimal(n).len() > 0,
        forall|i: int| 0 <= i < decimal(n).len() ==> is_digit(#[trigger] decimal(n)[i]),
        digits_value(decimal(n)) == n,
        decimal(n)[0] != '+',
    decreases n,
{
    assert((digit_char(n % 10) as nat) == n % 10 + 48);
    if n >= 10 {
        lemma_decimal_digits(n / 10);
        let d = decimal(n / 10);
        assert(decimal(n).drop_last() == d);
        assert(decimal(n)[0] == d[0]);
        assert(decimal(n).last() == digit_char(n % 10));
        assert(digits_value(decimal(n)) == digits_value(d) * 10 + n % 10);
        assert(n == (n / 10) * 10 + n % 10) by (nonlinear_arith);
    } else {
        assert(n % 10 == n);
        assert(decimal(n).drop_last() =~= Seq::<char>::empty());
        assert(decimal(n).last() == digit_char(n));
        assert(digits_value(decimal(n)) == digits_value(decimal(n).drop_last()) * 10 + n % 10);
    }
}

/// The decimal text of a number.
pub fn decimal_text(v: u64) -> (r: String)
    ensures
        r@ == decimal(v as nat),
{
    let mut n = v;
    let mut rev: Vec<char> = Vec::new();
    loop
        invariant_except_break
            decimal(v as nat) == decimal(n as nat) + rev@.reverse(),
        ensures
            decimal(v as nat) == rev@.reverse(),
        decreases n,
    {
        let d = n % 10;
        let c = ((d as u8) + 48) as char;
        proof {
            if n >= 10 {
                assert(decimal(n as nat) == decimal((n / 10) as nat).push(c));
                assert(rev@.push(c).reverse() =~= seq![c] + rev@.reverse());
                assert(decimal(v as nat) =~= decimal((n / 10) as nat) + rev@.push(c).reverse());
            } else {
                assert(decimal(n as nat) == seq![c]);
                assert(rev@.push(c).reverse() =~= seq![c] + rev@.reverse());
            }
        }
        rev.push(c);
        if n < 10 {
            assert(decimal(v as nat) =~= rev@.reverse());
            break;
        }
        n = n / 10;
    }
    let mut out = String::new();
    let mut i: usize = rev.len();
    while i > 0
        invariant
            0 <= i <= rev@.len(),
            decimal(v as nat) == rev@.reverse(),
            out@ == rev@.reverse().take((rev@.len() - i) as int),
        decreases i,
    {
        i -= 1;
        crate::strings::push_char(&mut out, rev[i]);
        assert(rev@.reverse()[(rev@.len() - i - 1) as int] == rev@[i as int]);
        assert(out@ =~= rev@.reverse().take((rev@.len() - i) as int));
    }
    assert(rev@.reverse().take(rev@.len() as int) =~= rev@.reverse());
    out
}


impl RevisionId {
    /// The decimal text a revision identifier travels as.
    pub fn text(self) -> (r: String)
        ensures
            r@ == decimal(self.spec_value() as nat),
    {
        decimal_text(self.0)
    }

    /// Reads a revision identifier from its decimal text, as `str::parse::<u64>` does.
    pub fn parse(text: &str) -> (r: Option<RevisionId>)
        ensures
            match spec_parse_u64(text@) {
                Some(v) => r matches Some(x) && x.spec_value() == v,
                None => r is None,
            },
    {
        match parse_u64(text) {
            Some(v) => Some(RevisionId(v)),
            None => None,
        }
    }
}

/// Reads a number as `str::parse::<u64>` does.
#[verifier::loop_isolation(false)]
pub fn parse_u64(text: &str) -> (r: Option<u64>)
    ensures
        r == spec_parse_u64(text@),
{
    let cs = crate::strings::chars_of(text);
    let start: usize = if cs.len() > 0 && cs[0] == '+' { 1 } else { 0 };
    let ghost body = unsigned_body(text@);
    assert(body =~= cs@.skip(start as int));
    if start >= cs.len() {
        return None;
    }
    let mut value: u64 = 0;
    let mut i: usize = start;
    assert(cs@.subrange(start as int, start as int) =~= Seq::<char>::empty());
    while i < cs.len()
        invariant
            start <= i <= cs@.len(),
            body == cs@.skip(start as int),
            forall|j: int| start <= j < i ==> is_digit(#[trigger] cs@[j]),
            value == digits_value(cs@.subrange(start as int, i as int)),
        decreases cs@.len() - i,
    {
        let c = cs[i];
        let ghost next = cs@.subrange(start as int, i as int + 1);
        assert(next.drop_last() =~= cs@.subrange(start as int, i as int));
        assert(next.last() == c);
        assert(body.take((i - start + 1) as int) =~= next);
        if !('0' <= c && c <= '9') {
            assert(body[i - start] == c);
            assert(!is_digit(body[(i - start) as int]));
            return None;
        }
        let d = (c as u32 - 48) as u64;
        let product = value.checked_mul(10);
        let sum = match product {
            Some(m) => m.checked_add(d),
            None => None,
        };
        match sum {
            None => {
                proof {
                    assert(digits_value(next) > u64::MAX);
                    if all_digits(body) {
                        lemma_digits_value_grows(body, (i - start + 1) as int);
                    } else {
                    }
                }
                return None;
            },
            Some(v) => value = v,
        }
        i += 1;
    }
    assert(cs@.subrange(start as int, cs@.len() as int) =~= body);
    Some(value)
}

proof fn lemma_digits_value_grows(s: Seq<char>, k: int)
    requires
        0 <= k <= s.len(),
        forall|i: int| 0 <= i < s.len() ==> is_digit(#[trigger] s[i]),
    ensures
        digits_value(s.take(k)) <= digits_value(s),
    decreases s.len() - k,
{
    if k < s.len() {
        lemma_digits_value_grows(s, k + 1);
        assert(s.take(k + 1).drop_last() =~= s.take(k));
    } else {
        assert(s.take(k) =~= s);
    }
}

/// A revision identifier's decimal text reads back as the same counter.
pub proof fn revision_text_round_trip(v: u64)
    ensures
        spec_parse_u64(decimal(v as nat)) == Some(v),
{
    lemma_decimal_digits(v as nat);
    assert(unsigned_body(decimal(v as nat)) == decimal(v as nat));
}

/// Two command identifiers are the same exactly when their values are.
pub proof fn command_id_identity(a: CommandId, b: CommandId)
    ensures
        a == b <==> a.value() == b.value(),
{
}

/// Two document identifiers are the same exactly when their values are.
pub proof fn document_id_identity(a: DocumentId, b: DocumentId)
    ensures
        a == b <==> a.value() == b.value(),
{
}

/// A revision identifier made with `From<u64>` is the one `new` makes of the
/// same value, and both hold that value.
pub proof fn revision_from_is_new(v: u64)
    ensures
        RevisionId::from_spec(v) == RevisionId::spec_new(v),
        RevisionId::from_spec(v).spec_value() == v,
{
}

/// Two revision identifiers are the same exactly when their counters are.
pub proof fn revision_id_identity(a: RevisionId, b: RevisionId)
    ensures
        a == b <==> a.spec_value() == b.spec_value(),
{
}

} // verus!
