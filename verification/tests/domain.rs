//! Public API regression tests for identities and alignments.

use jueming::{Alignment, Cardinality, ProjectId, RevisionId, SegmentId};

#[test]
fn revision_id_preserves_values_above_javascript_integer_precision() {
    let revision = RevisionId::new(u64::MAX);
    let encoded = serde_json::Value::String(revision.text());
    assert_eq!(encoded, u64::MAX.to_string());
    assert_eq!(RevisionId::parse(encoded.as_str().unwrap()).unwrap(), revision);
    // The wire form is a string: a bare JSON number reads as no revision.
    let bare: serde_json::Value = serde_json::from_str("42").unwrap();
    assert!(bare.as_str().and_then(RevisionId::parse).is_none());
}

#[test]
fn revision_id_is_a_decimal_wire_string() {
    assert_eq!(serde_json::to_string(&RevisionId::new(42).text()).unwrap(), "\"42\"");
    let text: String = serde_json::from_str("\"42\"").unwrap();
    assert_eq!(RevisionId::parse(&text).unwrap().value(), 42);
}

#[test]
fn ids_are_uuid_v7_and_serde_transparent() {
    let id = SegmentId::new();
    let uuid = uuid::Uuid::from_u128(id.as_u128());
    assert_eq!(uuid.get_version_num(), 7);
    let json = serde_json::to_string(&uuid.to_string()).unwrap();
    let parsed: String = serde_json::from_str(&json).unwrap();
    let back = uuid::Uuid::parse_str(&parsed).unwrap();
    assert_eq!(SegmentId::from_u128(back.as_u128()), id);
}

#[test]
fn cardinalities_are_derived() {
    let project = ProjectId::new();
    let r = RevisionId::new(1);
    assert_eq!(
        Alignment::new(project, vec![SegmentId::new()], vec![SegmentId::new()], r)
            .unwrap()
            .cardinality,
        Cardinality::OneToOne
    );
    assert_eq!(
        Alignment::new(
            project,
            vec![SegmentId::new()],
            vec![SegmentId::new(), SegmentId::new()],
            r
        )
        .unwrap()
        .cardinality,
        Cardinality::OneToMany
    );
    assert_eq!(
        Alignment::new(
            project,
            vec![SegmentId::new(), SegmentId::new()],
            vec![SegmentId::new()],
            r
        )
        .unwrap()
        .cardinality,
        Cardinality::ManyToOne
    );
    assert_eq!(
        Alignment::new(
            project,
            vec![SegmentId::new(), SegmentId::new()],
            vec![SegmentId::new(), SegmentId::new()],
            r
        )
        .unwrap()
        .cardinality,
        Cardinality::ManyToMany
    );
}

#[test]
fn revision_text_is_decimal_and_reads_back() {
    assert_eq!(RevisionId::new(42).text(), "42");
    assert_eq!(RevisionId::new(0).text(), "0");
    assert_eq!(RevisionId::new(u64::MAX).text(), u64::MAX.to_string());
    assert_eq!(RevisionId::parse(&u64::MAX.to_string()).unwrap().value(), u64::MAX);
    assert_eq!(RevisionId::parse("+7").unwrap().value(), 7);
    assert_eq!(RevisionId::parse("007").unwrap().value(), 7);
    assert!(RevisionId::parse("").is_none());
    assert!(RevisionId::parse("+").is_none());
    assert!(RevisionId::parse("-1").is_none());
    assert!(RevisionId::parse("4 2").is_none());
    assert!(RevisionId::parse("18446744073709551616").is_none());
    for value in [1u64, 9, 10, 99, 1000, 9007199254740993] {
        assert_eq!(RevisionId::parse(&RevisionId::new(value).text()).unwrap().value(), value);
        assert_eq!(RevisionId::parse(&value.to_string()).map(|r| r.value()), value.to_string().parse::<u64>().ok());
    }
}

#[test]
fn fresh_identifiers_carry_the_version_seven_layout() {
    let values = [
        ProjectId::new().as_u128(),
        SegmentId::new().as_u128(),
        jueming::DocumentId::new().as_u128(),
        jueming::OperationId::new().as_u128(),
        jueming::CommandId::new().as_u128(),
    ];
    for v in values {
        assert_eq!((v >> 76) & 0xf, 7);
        assert_eq!((v >> 62) & 0x3, 2);
        assert_eq!(uuid::Uuid::from_u128(v).get_variant(), uuid::Variant::RFC4122);
    }
}
