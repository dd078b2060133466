use vstd::prelude::*;

verus! {

/// A manifest field value, reduced to what entry validation inspects: a
/// string, an integer that fits in `u64`, or anything else.
pub enum JsonPrim {
    Str(String),
    Uint(u64),
    Other,
}

/// One element of the manifest array: a JSON object reduced to its fields,
/// or any non-object value.
pub enum JsonEntry {
    Fields(Vec<(String, JsonPrim)>),
    NotObject,
}

/// A parsed manifest body: the elements of the top-level JSON array, or
/// the marker that the body is not a JSON array at all.
pub enum ParsedManifest {
    Entries(Vec<JsonEntry>),
    NotArray,
}

/// What parsing a manifest body yields; the function of the body text
/// that `parse_manifest` computes.
pub uninterp spec fn manifest_of(s: Seq<char>) -> ParsedManifest;

/// Relies on `serde_json::from_str`: the value a JSON document parses to
/// depends on the text alone, and text that is not JSON is rejected. The
/// body keeps of each array element only what entry validation reads:
/// whether it is an object, and each field's string or `u64` content
/// (`serde_json::Number::as_u64` is `Some` exactly for integers in range).
#[verifier::external_body]
pub(crate) fn parse_manifest(s: &str) -> (r: ParsedManifest)
    ensures
        r == manifest_of(s@),
{
    match serde_json::from_str::<serde_json::Value>(s) {
        Ok(serde_json::Value::Array(a)) => ParsedManifest::Entries(a.iter().map(|e| match e.as_object() {
            None => JsonEntry::NotObject,
            Some(m) => JsonEntry::Fields(m.iter().map(|(k, v)| (k.clone(), match v {
                serde_json::Value::String(t) => JsonPrim::Str(t.clone()),
                serde_json::Value::Number(n) => n.as_u64().map_or(JsonPrim::Other, JsonPrim::Uint),
                _ => JsonPrim::Other,
            })).collect()),
        }).collect()),
        _ => ParsedManifest::NotArray,
    }
}

/// The destination filename a manifest URL yields: the last path segment
/// of the parsed URL, or nothing when the string is not a valid absolute
/// URL or its path has no segments.
pub uninterp spec fn url_file_name(url: Seq<char>) -> Option<Seq<char>>;

/// Relies on `url::Url::parse` and `url::Url::path_segments`: both depend
/// on the string alone; `path_segments` is `None` exactly for URLs that
/// cannot be a base, and otherwise yields at least one (possibly empty)
/// segment.
#[verifier::external_body]
pub(crate) fn url_last_segment(s: &str) -> (r: Option<String>)
    ensures
        match r {
            Some(name) => url_file_name(s@) == Some(name@),
            None => url_file_name(s@) is None,
        },
{
    match url::Url::parse(s) {
        Ok(u) => match u.path_segments() {
            Some(segments) => segments.last().map(|seg| seg.to_owned()),
            None => None,
        },
        Err(_) => None,
    }
}

/// The value of the first field named `key`, if any. Manifest objects
/// come from a JSON object, so no key occurs twice.
pub open spec fn field_lookup(fields: Seq<(String, JsonPrim)>, key: Seq<char>) -> Option<JsonPrim>
    decreases fields.len(),
{
    if fields.len() == 0 {
        None
    } else if fields[0].0@ == key {
        Some(fields[0].1)
    } else {
        field_lookup(fields.drop_first(), key)
    }
}

/// Finds the field named `key` among an entry's fields.
pub(crate) fn lookup_field<'a>(fields: &'a Vec<(String, JsonPrim)>, key: &String) -> (r: Option<
    &'a JsonPrim,
>)
    ensures
        match r {
            Some(p) => field_lookup(fields@, key@) == Some(*p),
            None => field_lookup(fields@, key@) is None,
        },
{
    let mut i: usize = 0;
    proof {
        assert(fields@.skip(0) =~= fields@);
    }
    while i < fields.len()
        invariant
            i <= fields.len(),
            field_lookup(fields@, key@) == field_lookup(fields@.skip(i as int), key@),
        decreases fields.len() - i,
    {
        if fields[i].0 == *key {
            assert(fields@.skip(i as int)[0] == fields@[i as int]);
            return Some(&fields[i].1);
        }
        assert(fields@.skip(i as int).drop_first() =~= fields@.skip(i + 1));
        assert(fields@.skip(i as int)[0] == fields@[i as int]);
        i += 1;
    }
    assert(fields@.skip(i as int) =~= Seq::<(String, JsonPrim)>::empty());
    None
}

} // verus!
