use file_downloader::downloader::{create_file_list, file_list_from_body, Error};
use file_downloader::json::{JsonEntry, JsonPrim};

fn obj(fields: Vec<(&str, JsonPrim)>) -> JsonEntry {
    JsonEntry::Fields(fields.into_iter().map(|(k, v)| (k.to_owned(), v)).collect())
}

#[test]
fn no_data() {
    let v: Vec<JsonEntry> = Vec::new();
    let list = create_file_list(v);
    assert!(list.is_err());
}

#[test]
fn only_url_data() {
    let v = vec![
        obj(vec![("url", JsonPrim::Str("http://aaa.bbb".to_owned()))]),
        obj(vec![("url", JsonPrim::Str("http://ccc.ddd".to_owned()))]),
    ];
    let list = create_file_list(v);
    assert!(list.is_err());
}

#[test]
fn only_size_data() {
    let v = vec![
        obj(vec![("size", JsonPrim::Uint(123))]),
        obj(vec![("size", JsonPrim::Uint(456))]),
    ];
    let list = create_file_list(v);
    assert!(list.is_err());
}

#[test]
fn invalid_data() {
    let v = vec![
        obj(vec![("abc", JsonPrim::Str("ddd".to_owned()))]),
        obj(vec![("efg", JsonPrim::Uint(123))]),
    ];
    let list = create_file_list(v);
    assert!(list.is_err());
}

#[test]
fn normal_data_with_url_and_size() {
    let v = vec![
        obj(vec![
            ("url", JsonPrim::Str("http://aaa.bbb/file1".to_owned())),
            ("size", JsonPrim::Uint(123)),
        ]),
        obj(vec![
            ("url", JsonPrim::Str("http://ccc.ddd/file2".to_owned())),
            ("size", JsonPrim::Uint(456)),
        ]),
    ];
    let list = create_file_list(v);
    assert!(list.is_ok());
    let list = list.unwrap();
    assert_eq!(list.len(), 2);
}

#[test]
fn partial_invalid_data() {
    let v = vec![
        obj(vec![
            ("url", JsonPrim::Str("http://aaa.bbb/file1".to_owned())),
            ("size", JsonPrim::Uint(123)),
        ]),
        obj(vec![("abc", JsonPrim::Str("ddd".to_owned()))]),
        obj(vec![
            ("url", JsonPrim::Str("http://ccc.ddd/file2".to_owned())),
            ("size", JsonPrim::Uint(456)),
        ]),
        obj(vec![("efg", JsonPrim::Uint(123))]),
    ];
    let list = create_file_list(v);
    assert!(list.is_ok());
    let list = list.unwrap();
    assert_eq!(list.len(), 2);
}

#[test]
fn single_entry_body_yields_one_descriptor() {
    let list = file_list_from_body(r#"[{"url":"http://a/x","size":10}]"#).unwrap();
    assert_eq!(list.len(), 1);
    assert_eq!(list[0].url, "http://a/x");
    assert_eq!(list[0].name, "x");
    assert_eq!(list[0].size, 10);
}

#[test]
fn body_missing_size_is_invalid_response() {
    let r = file_list_from_body(r#"[{"url":"http://a.b"}]"#);
    assert_eq!(r.unwrap_err(), Error::InvalidResponse);
}

#[test]
fn body_with_malformed_middle_entry_keeps_the_others() {
    let body = r#"[{"url":"http://a/x","size":1},{"bogus":true},{"url":"http://b/y","size":2}]"#;
    let list = file_list_from_body(body).unwrap();
    assert_eq!(list.len(), 2);
    assert_eq!(list[0].name, "x");
    assert_eq!(list[0].size, 1);
    assert_eq!(list[1].name, "y");
    assert_eq!(list[1].size, 2);
}

#[test]
fn empty_array_body_is_invalid_response() {
    let r = file_list_from_body("[]");
    assert_eq!(r.unwrap_err(), Error::InvalidResponse);
}

#[test]
fn non_array_body_is_invalid_response() {
    let r = file_list_from_body(r#"{"url":"http://a/x","size":10}"#);
    assert_eq!(r.unwrap_err(), Error::InvalidResponse);
}

#[test]
fn non_json_body_is_invalid_response() {
    let r = file_list_from_body("certainly not json");
    assert_eq!(r.unwrap_err(), Error::InvalidResponse);
}

#[test]
fn size_must_be_a_non_negative_integer() {
    let r = file_list_from_body(r#"[{"url":"http://a/x","size":-4}]"#);
    assert_eq!(r.unwrap_err(), Error::InvalidResponse);
    let r = file_list_from_body(r#"[{"url":"http://a/x","size":"10"}]"#);
    assert_eq!(r.unwrap_err(), Error::InvalidResponse);
}

#[test]
fn url_must_parse_as_an_absolute_url() {
    let r = file_list_from_body(r#"[{"url":"not a url","size":3}]"#);
    assert_eq!(r.unwrap_err(), Error::InvalidResponse);
}

#[test]
fn url_without_path_segments_is_skipped() {
    let r = file_list_from_body(r#"[{"url":"mailto:someone@a.b","size":3}]"#);
    assert_eq!(r.unwrap_err(), Error::InvalidResponse);
}

#[test]
fn url_with_empty_last_segment_is_skipped() {
    // A host-only URL's one path segment is empty, and so is the last
    // segment after a trailing slash: neither yields a destination name.
    let r = file_list_from_body(r#"[{"url":"http://a.b","size":3}]"#);
    assert_eq!(r.unwrap_err(), Error::InvalidResponse);
    let r = file_list_from_body(r#"[{"url":"http://a/x/","size":3}]"#);
    assert_eq!(r.unwrap_err(), Error::InvalidResponse);
}

#[test]
fn duplicates_are_preserved_in_order() {
    let body = r#"[{"url":"http://a/x","size":1},{"url":"http://a/x","size":1}]"#;
    let list = file_list_from_body(body).unwrap();
    assert_eq!(list.len(), 2);
    assert_eq!(list[0].name, "x");
    assert_eq!(list[1].name, "x");
}
