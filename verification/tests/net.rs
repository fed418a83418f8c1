use lune_exec::headers::{
    field_from_values, group_headers, header_map_to_table, is_content_header_name, readable_lines,
    try_header_map_to_table, HeaderEntry, HeaderField, HeaderLine, RawHeader,
};
use lune_exec::tables::{table_to_hash_map, HeaderValues, LuaField, TableError, TableItem};
use lune_exec::user_agent::{create_user_agent_header, first_space, user_agent_from_parts};
use reqwest::header::{HeaderMap, HeaderName, HeaderValue};

fn line(name: &str, value: &str) -> HeaderLine {
    HeaderLine { name: name.to_string(), value: value.to_string() }
}

fn single(name: &str, value: &str) -> HeaderEntry {
    HeaderEntry { name: name.to_string(), field: HeaderField::Single(value.to_string()) }
}

fn multiple(name: &str, values: &[&str]) -> HeaderEntry {
    HeaderEntry {
        name: name.to_string(),
        field: HeaderField::Multiple(values.iter().map(|v| v.to_string()).collect()),
    }
}

fn item(key: &str, value: LuaField) -> TableItem {
    TableItem { key: key.to_string(), value }
}

fn texts(values: &[&str]) -> Vec<String> {
    values.iter().map(|v| v.to_string()).collect()
}

#[test]
fn user_agent_lowers_the_name_and_keeps_the_version() {
    assert_eq!(create_user_agent_header("Lune 0.8.9+650"), "lune/0.8.9+650");
    assert_eq!(create_user_agent_header("LUNE X Y"), "lune/X Y");
    assert_eq!(create_user_agent_header(" v"), "/v");
    assert_eq!(create_user_agent_header("Ärger "), "ärger/");
}

#[test]
fn first_space_is_found_by_character() {
    assert_eq!(first_space("Lune 1"), Some(4));
    assert_eq!(first_space("Äb c d"), Some(2));
    assert_eq!(first_space("nospace"), None);
    assert_eq!(first_space(""), None);
}

#[test]
fn user_agent_parts_are_joined_by_a_slash() {
    assert_eq!(user_agent_from_parts("lune".to_string(), "1.0"), "lune/1.0");
    assert_eq!(user_agent_from_parts(String::new(), ""), "/");
}

#[test]
fn content_header_names_are_the_two_of_the_body() {
    assert!(is_content_header_name(&"content-encoding".to_string()));
    assert!(is_content_header_name(&"content-length".to_string()));
    assert!(!is_content_header_name(&"content-type".to_string()));
    assert!(!is_content_header_name(&"Content-Length".to_string()));
}

#[test]
fn one_value_is_a_string_and_more_are_a_list() {
    assert_eq!(field_from_values(texts(&["a"])), HeaderField::Single("a".to_string()));
    assert_eq!(field_from_values(texts(&["a", "b"])), HeaderField::Multiple(texts(&["a", "b"])));
    assert_eq!(field_from_values(Vec::new()), HeaderField::Multiple(Vec::new()));
}

#[test]
fn headers_are_grouped_by_name_in_order() {
    let lines = vec![
        line("set-cookie", "a=1"),
        line("content-type", "text/plain"),
        line("set-cookie", "b=2"),
        line("content-length", "12"),
        line("set-cookie", "a=1"),
        line("content-encoding", "gzip"),
    ];
    assert_eq!(
        group_headers(&lines, false),
        vec![
            multiple("set-cookie", &["a=1", "b=2", "a=1"]),
            single("content-type", "text/plain"),
            single("content-length", "12"),
            single("content-encoding", "gzip"),
        ]
    );
    assert_eq!(
        group_headers(&lines, true),
        vec![multiple("set-cookie", &["a=1", "b=2", "a=1"]), single("content-type", "text/plain")]
    );
    assert_eq!(group_headers(&Vec::new(), true), Vec::new());
}

#[test]
fn raw_lines_are_readable_only_if_all_are_text() {
    let raw = vec![
        RawHeader { name: "a".to_string(), value: Some("1".to_string()) },
        RawHeader { name: "b".to_string(), value: Some("2".to_string()) },
        RawHeader { name: "a".to_string(), value: Some("3".to_string()) },
    ];
    assert_eq!(readable_lines(&raw), Some(vec![line("a", "1"), line("b", "2"), line("a", "3")]));
    let mut broken = raw;
    broken[1].value = None;
    assert_eq!(readable_lines(&broken), None);
    assert_eq!(readable_lines(&Vec::new()), Some(Vec::new()));
}

#[test]
fn header_map_becomes_a_table() {
    let mut headers = HeaderMap::new();
    headers.append("Set-Cookie", HeaderValue::from_static("a=1"));
    headers.append("content-length", HeaderValue::from_static("5"));
    headers.append("set-cookie", HeaderValue::from_static("b=2"));
    headers.append(HeaderName::from_static("x-one"), HeaderValue::from_static("1"));
    headers.append("content-encoding", HeaderValue::from_static("br"));

    let mut table = header_map_to_table(&headers, false);
    table.sort_by(|a, b| a.name.cmp(&b.name));
    assert_eq!(
        table,
        vec![
            single("content-encoding", "br"),
            single("content-length", "5"),
            multiple("set-cookie", &["a=1", "b=2"]),
            single("x-one", "1"),
        ]
    );

    let mut table = header_map_to_table(&headers, true);
    table.sort_by(|a, b| a.name.cmp(&b.name));
    assert_eq!(table, vec![multiple("set-cookie", &["a=1", "b=2"]), single("x-one", "1")]);

    assert_eq!(try_header_map_to_table(&headers, true).map(|t| t.len()), Some(2));
    assert_eq!(header_map_to_table(&HeaderMap::new(), false), Vec::new());
}

#[test]
fn header_map_with_a_value_that_is_no_text_gives_no_table() {
    let mut headers = HeaderMap::new();
    headers.append("x-text", HeaderValue::from_static("fine"));
    headers.append("x-bytes", HeaderValue::from_bytes(&[0xfa, 0xfb]).unwrap());
    assert_eq!(try_header_map_to_table(&headers, false), None);
    headers.remove("x-bytes");
    assert_eq!(try_header_map_to_table(&headers, false), Some(vec![single("x-text", "fine")]));
}

#[test]
fn table_of_strings_and_arrays_becomes_a_map() {
    let items = vec![
        item("accept", LuaField::Text("*/*".to_string())),
        item("cookie", LuaField::Sequence(texts(&["a=1", "b=2"]))),
        item("empty", LuaField::Sequence(Vec::new())),
    ];
    assert_eq!(
        table_to_hash_map(&items, "headers"),
        Ok(vec![
            HeaderValues { name: "accept".to_string(), values: texts(&["*/*"]) },
            HeaderValues { name: "cookie".to_string(), values: texts(&["a=1", "b=2"]) },
            HeaderValues { name: "empty".to_string(), values: Vec::new() },
        ])
    );
    assert_eq!(table_to_hash_map(&Vec::new(), "headers"), Ok(Vec::new()));
}

#[test]
fn later_pair_replaces_an_earlier_one_with_the_same_key() {
    let items = vec![
        item("1", LuaField::Text("first".to_string())),
        item("x", LuaField::Text("kept".to_string())),
        item("1", LuaField::Sequence(texts(&["second", "third"]))),
    ];
    assert_eq!(
        table_to_hash_map(&items, "query"),
        Ok(vec![
            HeaderValues { name: "1".to_string(), values: texts(&["second", "third"]) },
            HeaderValues { name: "x".to_string(), values: texts(&["kept"]) },
        ])
    );
}

#[test]
fn value_of_another_kind_is_refused_with_the_tables_name() {
    let items = vec![
        item("ok", LuaField::Text("v".to_string())),
        item("bad", LuaField::Unsupported),
        item("worse", LuaField::Malformed("invalid utf-8".to_string())),
    ];
    assert_eq!(
        table_to_hash_map(&items, "headers"),
        Err(TableError::Runtime(
            "Value for 'headers' must be a string or array of strings".to_string()
        ))
    );
}

#[test]
fn pair_that_could_not_be_read_is_refused_with_its_reason() {
    let items = vec![
        item("bad", LuaField::Malformed("invalid utf-8".to_string())),
        item("other", LuaField::Unsupported),
    ];
    let result = table_to_hash_map(&items, "query");
    assert_eq!(result, Err(TableError::Conversion("invalid utf-8".to_string())));
    assert_eq!(result.unwrap_err().message(), "invalid utf-8");
    assert_eq!(TableError::Runtime("r".to_string()).message(), "r");
}
