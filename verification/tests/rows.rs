use mssql_bridge::materialize::Materializer;
use mssql_bridge::normalize::cell_value;
use mssql_bridge::normalize::fetch_kind;
use mssql_bridge::normalize::row_to_vec;
use mssql_bridge::normalize::ColumnKind;
use mssql_bridge::normalize::FetchKind;
use mssql_bridge::payload::finalize_payload;

#[test]
fn policy_table_supported_tags() {
    assert_eq!(fetch_kind(ColumnKind::Bit), FetchKind::Boolean);
    assert_eq!(fetch_kind(ColumnKind::Int1), FetchKind::TinyInt);
    assert_eq!(fetch_kind(ColumnKind::Int2), FetchKind::SmallInt);
    assert_eq!(fetch_kind(ColumnKind::Int4), FetchKind::Int);
    assert_eq!(fetch_kind(ColumnKind::Int8), FetchKind::BigInt);
    assert_eq!(fetch_kind(ColumnKind::Intn), FetchKind::BigInt);
    assert_eq!(fetch_kind(ColumnKind::Bitn), FetchKind::BigInt);
    assert_eq!(fetch_kind(ColumnKind::Float4), FetchKind::Real);
    assert_eq!(fetch_kind(ColumnKind::Float8), FetchKind::Double);
    assert_eq!(fetch_kind(ColumnKind::Decimaln), FetchKind::Double);
    assert_eq!(fetch_kind(ColumnKind::Numericn), FetchKind::Double);
    assert_eq!(fetch_kind(ColumnKind::Floatn), FetchKind::Double);
    assert_eq!(fetch_kind(ColumnKind::Datetime4), FetchKind::DateTime);
    assert_eq!(fetch_kind(ColumnKind::Datetime), FetchKind::DateTime);
    assert_eq!(fetch_kind(ColumnKind::Datetimen), FetchKind::DateTime);
    assert_eq!(fetch_kind(ColumnKind::Datetime2), FetchKind::DateTime);
    assert_eq!(fetch_kind(ColumnKind::Daten), FetchKind::Date);
    assert_eq!(fetch_kind(ColumnKind::Timen), FetchKind::Time);
    assert_eq!(
        fetch_kind(ColumnKind::DatetimeOffsetn),
        FetchKind::DateTimeOffset
    );
    assert_eq!(fetch_kind(ColumnKind::BigVarChar), FetchKind::Chars);
    assert_eq!(fetch_kind(ColumnKind::BigChar), FetchKind::Chars);
    assert_eq!(fetch_kind(ColumnKind::NVarchar), FetchKind::Chars);
    assert_eq!(fetch_kind(ColumnKind::NChar), FetchKind::Chars);
    assert_eq!(fetch_kind(ColumnKind::Text), FetchKind::Chars);
    assert_eq!(fetch_kind(ColumnKind::NText), FetchKind::Chars);
}

#[test]
fn policy_table_unsupported_tags_are_never_read() {
    for k in [
        ColumnKind::Null,
        ColumnKind::Money,
        ColumnKind::Money4,
        ColumnKind::Guid,
        ColumnKind::BigVarBin,
        ColumnKind::BigBinary,
        ColumnKind::Xml,
        ColumnKind::Udt,
        ColumnKind::Image,
        ColumnKind::SSVariant,
    ] {
        assert_eq!(fetch_kind(k), FetchKind::Skip);
    }
}

#[test]
fn present_values_keep_their_text() {
    assert_eq!(cell_value(FetchKind::Chars, &Some("hello".to_string())), "hello");
    assert_eq!(cell_value(FetchKind::Boolean, &Some("true".to_string())), "true");
    assert_eq!(cell_value(FetchKind::BigInt, &Some("42".to_string())), "42");
}

#[test]
fn absent_values_become_the_empty_string() {
    assert_eq!(cell_value(FetchKind::BigInt, &None), "");
    assert_eq!(cell_value(FetchKind::Chars, &None), "");
}

#[test]
fn unsupported_columns_are_empty_even_when_a_value_is_offered() {
    assert_eq!(cell_value(FetchKind::Skip, &Some("0xCAFE".to_string())), "");
    assert_eq!(cell_value(FetchKind::Skip, &None), "");
}

#[test]
fn null_and_unsupported_are_indistinguishable() {
    let kinds = vec![ColumnKind::Intn, ColumnKind::BigVarBin];
    let cells = vec![None, None];
    let row = row_to_vec(&kinds, &cells);
    assert_eq!(row, vec!["".to_string(), "".to_string()]);
    assert_eq!(row[0], row[1]);
}

#[test]
fn rows_keep_position_and_order() {
    let kinds = vec![ColumnKind::Int4, ColumnKind::NVarchar, ColumnKind::Guid];
    let cells = vec![Some("1".to_string()), Some("abc".to_string()), None];
    assert_eq!(
        row_to_vec(&kinds, &cells),
        vec!["1".to_string(), "abc".to_string(), "".to_string()]
    );
}

#[test]
fn one_row_one_column_query() {
    let mut m = Materializer::new();
    m.add_metadata(vec!["x".to_string()]);
    m.push_row(row_to_vec(&vec![ColumnKind::Int4], &vec![Some("1".to_string())]));
    let q = m.finish();
    assert_eq!(q.error, "");
    assert_eq!(q.metadata, vec!["x".to_string()]);
    assert_eq!(q.data, vec![vec!["1".to_string()]]);
}

#[test]
fn zero_rows_still_carry_metadata() {
    let mut m = Materializer::new();
    m.add_metadata(vec!["id".to_string(), "name".to_string()]);
    let q = m.finish();
    assert_eq!(q.error, "");
    assert_eq!(q.metadata, vec!["id".to_string(), "name".to_string()]);
    assert!(q.data.is_empty());
}

#[test]
fn rows_arrive_in_stream_order() {
    let mut m = Materializer::new();
    m.add_metadata(vec!["n".to_string()]);
    m.push_row(vec!["1".to_string()]);
    m.push_row(vec!["2".to_string()]);
    m.push_row(vec!["3".to_string()]);
    let q = m.finish();
    assert_eq!(
        q.data,
        vec![
            vec!["1".to_string()],
            vec!["2".to_string()],
            vec!["3".to_string()],
        ]
    );
}

#[test]
fn success_path_open_execute_close() {
    // Open: a fresh connection at some address yields its handle text.
    let opened = mssql_bridge::envelope::ConnectResult::new(140234882);
    assert_eq!(opened.handle, "140234882");
    assert_eq!(opened.error, "");

    // Execute: the returned handle resolves back to the same address,
    // and a one-row, one-column result materializes in order.
    let opts = mssql_bridge::envelope::QueryOptions {
        connHandle: opened.handle.clone(),
        query: "SELECT 1 AS x".to_string(),
    };
    let resolved = mssql_bridge::boundary::resolve_query_handle(&opts);
    assert!(matches!(resolved, Ok(140234882)));
    let mut m = Materializer::new();
    m.add_metadata(vec!["x".to_string()]);
    m.push_row(row_to_vec(&vec![ColumnKind::Int4], &vec![Some("1".to_string())]));
    let q = m.finish();
    assert_eq!(q.metadata, vec!["x".to_string()]);
    assert_eq!(q.data, vec![vec!["1".to_string()]]);
    assert_eq!(q.error, "");

    // Close: the same handle resolves once more and the close succeeds.
    let copts = mssql_bridge::envelope::CloseOptions { connHandle: opened.handle.clone() };
    assert!(matches!(mssql_bridge::boundary::resolve_close_handle(&copts), Ok(140234882)));
    assert_eq!(mssql_bridge::envelope::CloseResult::new().error, "");
}

#[test]
fn payload_gets_a_terminating_null_byte() {
    let out = finalize_payload(Some(b"{\"error\": \"\"}".to_vec()));
    assert_eq!(out, b"{\"error\": \"\"}\0".to_vec());
}

#[test]
fn missing_encoding_falls_back_to_the_fixed_payload() {
    let out = finalize_payload(None);
    assert_eq!(out, b"{\"error\": \"JSON error\"}\0".to_vec());
}
