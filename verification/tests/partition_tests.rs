use espflash::partition::{validate, PartitionTableError, RowError, RowErrorKind};

const TABLE: &str = "nvs,data,nvs,0x9000,0x6000\napp,app,factory,0x10000";

#[test]
fn shorter_second_row_fails_with_count_hint_and_line_span() {
    let err = validate(TABLE.as_bytes()).unwrap_err();
    assert_eq!(
        err.hint,
        "record has 4 fields, but the previous record has 5 fields"
    );
    // the span covers the second row's whole line
    let second_row = "app,app,factory,0x10000";
    let offset = TABLE.find(second_row).unwrap();
    assert_eq!(err.offset, offset);
    assert_eq!(err.length, second_row.len());
    assert_eq!(err.error.line, 2);
    assert_eq!(err.error.byte, offset);
    assert_eq!(
        err.error.kind,
        RowErrorKind::UnequalLengths {
            expected: 5,
            len: 4
        }
    );
    // the diagnostic keeps the whole original source for re-display
    assert_eq!(err.source, TABLE.as_bytes());
}

#[test]
fn longer_later_row_also_fails() {
    let table = b"a,b\nc,d\ne,f,g\nh,i";
    let err = validate(table).unwrap_err();
    assert_eq!(err.error.line, 3);
    assert_eq!(
        err.hint,
        "record has 3 fields, but the previous record has 2 fields"
    );
    assert_eq!(err.offset, 8);
    assert_eq!(err.length, 5);
}

#[test]
fn uniform_rows_validate_with_their_fields() {
    let records = validate(b"nvs,data,nvs\nphy,data,phy\n").unwrap();
    assert_eq!(records.len(), 2);
    assert_eq!(records[0].fields, vec![b"nvs".to_vec(), b"data".to_vec(), b"nvs".to_vec()]);
    assert_eq!(records[1].fields, vec![b"phy".to_vec(), b"data".to_vec(), b"phy".to_vec()]);
}

#[test]
fn single_row_and_empty_input_validate() {
    let records = validate(b"only,one,row").unwrap();
    assert_eq!(records.len(), 1);
    assert_eq!(records[0].fields.len(), 3);
    assert_eq!(validate(b"").unwrap().len(), 0);
}

#[test]
fn trailing_delimiter_makes_an_empty_field() {
    let records = validate(b"a,b,\nc,d,e").unwrap();
    assert_eq!(records[0].fields, vec![b"a".to_vec(), b"b".to_vec(), Vec::new()]);
}

#[test]
fn diagnostic_for_a_deserialize_failure_keeps_the_inner_message() {
    let source = b"first,row\nbad,row".to_vec();
    let error = RowError {
        line: 2,
        byte: 10,
        kind: RowErrorKind::Deserialize {
            message: String::from("invalid digit found in string"),
        },
    };
    let diag = PartitionTableError::new(error, source.clone());
    assert_eq!(diag.hint, "invalid digit found in string");
    assert_eq!(diag.offset, 10);
    assert_eq!(diag.length, "bad,row".len());
    assert_eq!(diag.source, source);
}
