use robtop::de::{
    convert, decode, decode_sequence, DeError, Field, Kind, Mode, Presence, Record, Scalar, Schema,
    Thunk, Value,
};

fn field(name: &'static str, key: u64, kind: Kind, presence: Presence) -> Field {
    Field { name, key, kind, presence, deferred: false }
}

fn listed(strict: bool) -> Schema {
    Schema {
        fields: vec![
            field("id", 1, Kind::Number, Presence::Required),
            field("title", 2, Kind::Text, Presence::Required),
            field("hidden", 3, Kind::Flag, Presence::Optional),
            field("rank", 4, Kind::Number, Presence::Defaulted),
        ],
        strict,
    }
}

fn keyed() -> Schema {
    Schema {
        fields: vec![
            field("id", 1, Kind::Number, Presence::Required),
            field("title", 2, Kind::Text, Presence::Defaulted),
            field("hidden", 13, Kind::Flag, Presence::Optional),
            field("rank", 4, Kind::Number, Presence::Defaulted),
            field("shown", 5, Kind::Flag, Presence::Defaulted),
        ],
        strict: false,
    }
}

#[test]
fn convert_reads_each_kind() {
    assert_eq!(convert("42", Kind::Number), Some(Scalar::Number(42)));
    assert_eq!(convert("x", Kind::Number), None);
    assert_eq!(convert("1", Kind::Flag), Some(Scalar::Flag(true)));
    assert_eq!(convert("0", Kind::Flag), Some(Scalar::Flag(false)));
    assert_eq!(convert("yes", Kind::Flag), None);
    assert_eq!(convert("42", Kind::Text), Some(Scalar::Text("42")));
    assert_eq!(convert("", Kind::Text), Some(Scalar::Text("")));
}

#[test]
fn positional_tokens_go_to_fields_in_order() {
    let record = decode("5,Stereo,1,9", ",", Mode::Positional, &listed(false)).unwrap();
    assert_eq!(
        record,
        Record {
            values: vec![
                Value::Present(Scalar::Number(5)),
                Value::Present(Scalar::Text("Stereo")),
                Value::Present(Scalar::Flag(true)),
                Value::Present(Scalar::Number(9)),
            ],
        }
    );
}

#[test]
fn positional_text_borrows_from_the_input() {
    let input = String::from("5,Stereo");
    let record = decode(&input, ",", Mode::Positional, &listed(false)).unwrap();
    match record.values[1] {
        Value::Present(Scalar::Text(t)) => {
            assert_eq!(t, "Stereo");
            assert_eq!(t.as_ptr(), input[2..].as_ptr());
        }
        _ => panic!("the title is text"),
    }
}

#[test]
fn positional_missing_optional_is_absent_and_defaulted_is_default() {
    let record = decode("5,Stereo", ",", Mode::Positional, &listed(false)).unwrap();
    assert_eq!(
        record.values,
        vec![
            Value::Present(Scalar::Number(5)),
            Value::Present(Scalar::Text("Stereo")),
            Value::Absent,
            Value::Present(Scalar::Number(0)),
        ]
    );
}

#[test]
fn positional_missing_required_is_unexpected_format() {
    assert_eq!(decode("5", ",", Mode::Positional, &listed(false)), Err(DeError::UnexpectedFormat));
}

#[test]
fn positional_bad_token_is_a_type_mismatch_with_field_and_token() {
    assert_eq!(
        decode("five,Stereo", ",", Mode::Positional, &listed(false)),
        Err(DeError::TypeMismatch { field: "id", raw: "five" })
    );
    assert_eq!(
        decode("5,Stereo,maybe", ",", Mode::Positional, &listed(false)),
        Err(DeError::TypeMismatch { field: "hidden", raw: "maybe" })
    );
    assert_eq!(decode("", ",", Mode::Positional, &listed(false)), Err(DeError::TypeMismatch { field: "id", raw: "" }));
}

#[test]
fn positional_first_failing_field_gives_the_error() {
    assert_eq!(
        decode("x,Stereo,y,z", ",", Mode::Positional, &listed(false)),
        Err(DeError::TypeMismatch { field: "id", raw: "x" })
    );
    assert_eq!(decode("x", ",", Mode::Positional, &listed(false)), Err(DeError::TypeMismatch { field: "id", raw: "x" }));
}

#[test]
fn positional_trailing_tokens_are_ignored_unless_strict() {
    let lenient = decode("5,Stereo,1,9,extra,more", ",", Mode::Positional, &listed(false)).unwrap();
    assert_eq!(lenient.values.len(), 4);
    assert_eq!(lenient.values[3], Value::Present(Scalar::Number(9)));
    assert_eq!(decode("5,Stereo,1,9,extra", ",", Mode::Positional, &listed(true)), Err(DeError::UnexpectedFormat));
    assert!(decode("5,Stereo,1,9", ",", Mode::Positional, &listed(true)).is_ok());
    assert!(decode("5,Stereo", ",", Mode::Positional, &listed(true)).is_ok());
}

#[test]
fn strict_trailing_check_comes_before_the_fields() {
    assert_eq!(decode("x,Stereo,1,9,extra", ",", Mode::Positional, &listed(true)), Err(DeError::UnexpectedFormat));
}

#[test]
fn indexed_fields_come_in_any_order() {
    let record = decode("4:9:2:Stereo:13:1:1:5:5:1", ":", Mode::Indexed, &keyed()).unwrap();
    assert_eq!(
        record.values,
        vec![
            Value::Present(Scalar::Number(5)),
            Value::Present(Scalar::Text("Stereo")),
            Value::Present(Scalar::Flag(true)),
            Value::Present(Scalar::Number(9)),
            Value::Present(Scalar::Flag(true)),
        ]
    );
}

#[test]
fn indexed_unknown_keys_are_skipped() {
    let record = decode("99:junk:1:5:abc:def", ":", Mode::Indexed, &keyed()).unwrap();
    assert_eq!(record.values[0], Value::Present(Scalar::Number(5)));
}

#[test]
fn indexed_missing_keys_resolve_by_presence() {
    let record = decode("1:5", ":", Mode::Indexed, &keyed()).unwrap();
    assert_eq!(
        record.values,
        vec![
            Value::Present(Scalar::Number(5)),
            Value::Present(Scalar::Text("")),
            Value::Absent,
            Value::Present(Scalar::Number(0)),
            Value::Present(Scalar::Flag(false)),
        ]
    );
}

#[test]
fn indexed_missing_required_key_is_unknown_required_key() {
    assert_eq!(decode("2:Stereo", ":", Mode::Indexed, &keyed()), Err(DeError::UnknownRequiredKey));
    assert_eq!(decode("", ":", Mode::Indexed, &keyed()), Err(DeError::UnknownRequiredKey));
}

#[test]
fn indexed_bad_value_is_a_type_mismatch() {
    assert_eq!(
        decode("1:5:4:high", ":", Mode::Indexed, &keyed()),
        Err(DeError::TypeMismatch { field: "rank", raw: "high" })
    );
}

#[test]
fn indexed_key_without_value_is_ignored() {
    assert_eq!(decode("1", ":", Mode::Indexed, &keyed()), Err(DeError::UnknownRequiredKey));
    let record = decode("1:5:4", ":", Mode::Indexed, &keyed()).unwrap();
    assert_eq!(record.values[3], Value::Present(Scalar::Number(0)));
}

#[test]
fn indexed_first_occurrence_of_a_key_wins() {
    let record = decode("1:5:1:6", ":", Mode::Indexed, &keyed()).unwrap();
    assert_eq!(record.values[0], Value::Present(Scalar::Number(5)));
}

#[test]
fn indexed_values_are_never_taken_for_keys() {
    let record = decode("2:1:1:7", ":", Mode::Indexed, &keyed()).unwrap();
    assert_eq!(record.values[0], Value::Present(Scalar::Number(7)));
    assert_eq!(record.values[1], Value::Present(Scalar::Text("1")));
}

#[test]
fn deferred_field_is_kept_raw_until_read() {
    let schema = Schema {
        fields: vec![
            Field { name: "id", key: 1, kind: Kind::Number, presence: Presence::Required, deferred: true },
            Field { name: "size", key: 2, kind: Kind::Number, presence: Presence::Required, deferred: true },
        ],
        strict: false,
    };
    let record = decode("12,huge", ",", Mode::Positional, &schema).unwrap();
    let mut id = match record.values[0] {
        Value::Deferred(t) => t,
        _ => panic!("the id is deferred"),
    };
    assert_eq!(id.raw(), "12");
    assert_eq!(id.kind(), Kind::Number);
    assert!(!id.is_evaluated());
    let copy_before_read = id;
    assert_eq!(id.get(), Some(Scalar::Number(12)));
    assert!(id.is_evaluated());
    assert!(!copy_before_read.is_evaluated());
    assert_eq!(id.get(), Some(Scalar::Number(12)));
    assert_eq!(id.raw(), "12");

    let mut size = match record.values[1] {
        Value::Deferred(t) => t,
        _ => panic!("the size is deferred"),
    };
    assert!(!size.is_evaluated());
    assert_eq!(size.get(), None);
    assert!(size.is_evaluated());
    assert_eq!(size.get(), None);
}

#[test]
fn thunk_reads_each_kind() {
    let mut text = Thunk::new("hello", Kind::Text);
    assert!(!text.is_evaluated());
    assert_eq!(text.get(), Some(Scalar::Text("hello")));
    let mut flag = Thunk::new("1", Kind::Flag);
    assert_eq!(flag.get(), Some(Scalar::Flag(true)));
    let mut number = Thunk::new("", Kind::Number);
    assert_eq!(number.get(), None);
}

#[test]
fn deferred_missing_field_resolves_by_presence() {
    let schema = Schema {
        fields: vec![
            Field { name: "id", key: 1, kind: Kind::Number, presence: Presence::Required, deferred: false },
            Field { name: "note", key: 2, kind: Kind::Text, presence: Presence::Optional, deferred: true },
        ],
        strict: false,
    };
    let record = decode("3", ",", Mode::Positional, &schema).unwrap();
    assert_eq!(record.values, vec![Value::Present(Scalar::Number(3)), Value::Absent]);
}

#[test]
fn decode_sequence_gives_one_record_for_each_fragment() {
    let records = decode_sequence("1,a|2,b|3,c", "|", ",", Mode::Positional, &listed(false)).unwrap();
    assert_eq!(records.len(), 3);
    assert_eq!(records[0].values[1], Value::Present(Scalar::Text("a")));
    assert_eq!(records[1].values[0], Value::Present(Scalar::Number(2)));
    assert_eq!(records[2].values[1], Value::Present(Scalar::Text("c")));
}

#[test]
fn decode_sequence_fails_with_the_first_bad_fragment() {
    assert_eq!(
        decode_sequence("1,a|x,b|y,c", "|", ",", Mode::Positional, &listed(false)),
        Err(DeError::TypeMismatch { field: "id", raw: "x" })
    );
    assert_eq!(decode_sequence("1,a|2", "|", ",", Mode::Positional, &listed(false)), Err(DeError::UnexpectedFormat));
}

#[test]
fn decode_sequence_of_empty_text_decodes_one_empty_fragment() {
    assert_eq!(
        decode_sequence("", "|", ",", Mode::Positional, &listed(false)),
        Err(DeError::TypeMismatch { field: "id", raw: "" })
    );
}

#[test]
fn decode_errors_render_in_one_line() {
    assert_eq!(DeError::TypeMismatch { field: "id", raw: "x" }.message(), "type mismatch");
    assert_eq!(DeError::UnexpectedFormat.message(), "unexpected format");
    assert_eq!(DeError::UnknownRequiredKey.message(), "unknown required key");
}

#[test]
fn one_schema_serves_both_modes() {
    let schema = Schema {
        fields: vec![
            field("id", 2, Kind::Number, Presence::Required),
            field("title", 1, Kind::Text, Presence::Required),
        ],
        strict: false,
    };
    let by_position = decode("1;2", ";", Mode::Positional, &schema).unwrap();
    assert_eq!(
        by_position.values,
        vec![Value::Present(Scalar::Number(1)), Value::Present(Scalar::Text("2"))]
    );
    let by_key = decode("1;2", ";", Mode::Indexed, &schema);
    assert_eq!(by_key, Err(DeError::UnknownRequiredKey));
    let by_key = decode("1;x;2;9", ";", Mode::Indexed, &schema).unwrap();
    assert_eq!(by_key.values, vec![Value::Present(Scalar::Number(9)), Value::Present(Scalar::Text("x"))]);
}

#[test]
fn decode_sequence_with_long_delimiters() {
    let schema = Schema {
        fields: vec![
            field("id", 1, Kind::Number, Presence::Required),
            field("title", 2, Kind::Text, Presence::Required),
        ],
        strict: false,
    };
    let records = decode_sequence("1~|~5~|~2~|~a~:~2~|~b~|~1~|~6", "~:~", "~|~", Mode::Indexed, &schema).unwrap();
    assert_eq!(records.len(), 2);
    assert_eq!(records[0].values, vec![Value::Present(Scalar::Number(5)), Value::Present(Scalar::Text("a"))]);
    assert_eq!(records[1].values, vec![Value::Present(Scalar::Number(6)), Value::Present(Scalar::Text("b"))]);
}
