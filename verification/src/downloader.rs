use vstd::prelude::*;

use crate::file::{FileInfo, FileInfoModel};
use crate::json::{field_lookup, lookup_field, manifest_of, parse_manifest, url_file_name};
use crate::json::{JsonEntry, JsonPrim, ParsedManifest};

verus! {

/// The ways fetching a manifest or downloading a file can fail.
#[derive(Clone, Copy, Debug, PartialEq, Eq, Structural)]
pub enum Error {
    InvalidUrl,
    DownloadFail,
    InvalidResponse,
    IoError,
}

/// The descriptor one manifest entry yields: `Some` exactly when the entry
/// is an object whose `url` field is a string that parses to a URL with a
/// non-empty last path segment, and whose `size` field is an integer
/// fitting `u64`. The destination name is that last path segment; a URL
/// yielding no name, or an empty one, makes the whole entry invalid.
pub open spec fn entry_descriptor(e: JsonEntry) -> Option<FileInfoModel> {
    match e {
        JsonEntry::NotObject => None,
        JsonEntry::Fields(fields) => match field_lookup(fields@, "url"@) {
            Some(JsonPrim::Str(u)) => match url_file_name(u@) {
                Some(name) => if name.len() == 0 {
                    None
                } else {
                    match field_lookup(fields@, "size"@) {
                        Some(JsonPrim::Uint(size)) => Some(FileInfoModel { url: u@, name, size }),
                        _ => None,
                    }
                },
                None => None,
            },
            _ => None,
        },
    }
}

/// The descriptors a sequence of manifest entries yields: one per valid
/// entry, in manifest order, with invalid entries skipped.
pub open spec fn descriptors_of(entries: Seq<JsonEntry>) -> Seq<FileInfoModel>
    decreases entries.len(),
{
    if entries.len() == 0 {
        Seq::empty()
    } else {
        match entry_descriptor(entries.last()) {
            Some(d) => descriptors_of(entries.drop_last()).push(d),
            None => descriptors_of(entries.drop_last()),
        }
    }
}

/// One descriptor per valid entry, in order: extending a manifest by one
/// entry appends exactly that entry's descriptor to the descriptor list,
/// and nothing when the entry is invalid.
pub proof fn lemma_descriptors_one_per_entry(entries: Seq<JsonEntry>, e: JsonEntry)
    ensures
        descriptors_of(entries.push(e)) == match entry_descriptor(e) {
            Some(d) => descriptors_of(entries).push(d),
            None => descriptors_of(entries),
        },
{
    assert(entries.push(e).drop_last() =~= entries);
    assert(entries.push(e).last() == e);
}

/// Validates manifest entries into download descriptors: exactly the valid
/// entries become descriptors, in manifest order; a manifest yielding no
/// descriptor at all is rejected wholesale.
pub fn create_file_list(entries: Vec<JsonEntry>) -> (r: Result<Vec<FileInfo>, Error>)
    ensures
        match r {
            Ok(list) => list@.map_values(|f: FileInfo| f@) == descriptors_of(entries@)
                && descriptors_of(entries@).len() > 0,
            Err(e) => e == Error::InvalidResponse && descriptors_of(entries@).len() == 0,
        },
{
    let mut file_list: Vec<FileInfo> = Vec::new();
    let url_key: String = "url".to_owned();
    let size_key: String = "size".to_owned();
    let mut i: usize = 0;
    while i < entries.len()
        invariant
            i <= entries.len(),
            url_key@ == "url"@,
            size_key@ == "size"@,
            file_list@.map_values(|f: FileInfo| f@) == descriptors_of(entries@.take(i as int)),
        decreases entries.len() - i,
    {
        let ghost prefix = entries@.take(i as int);
        let ghost entry = entries@[i as int];
        proof {
            assert(entries@.take(i + 1) =~= prefix.push(entry));
            lemma_descriptors_one_per_entry(prefix, entry);
        }
        match &entries[i] {
            JsonEntry::NotObject => {},
            JsonEntry::Fields(fields) => {
                match lookup_field(fields, &url_key) {
                    Some(JsonPrim::Str(u)) => {
                        match crate::json::url_last_segment(u.as_str()) {
                            Some(name) => {
                                if !name.as_str().is_empty() {
                                    match lookup_field(fields, &size_key) {
                                        Some(JsonPrim::Uint(size)) => {
                                            let info = FileInfo {
                                                url: u.clone(),
                                                name,
                                                size: *size,
                                            };
                                            proof {
                                                assert(file_list@.push(info).map_values(
                                                    |f: FileInfo| f@,
                                                ) =~= file_list@.map_values(|f: FileInfo| f@).push(
                                                    info@,
                                                ));
                                            }
                                            file_list.push(info);
                                        },
                                        _ => {},
                                    }
                                }
                            },
                            None => {},
                        }
                    },
                    _ => {},
                }
            },
        }
        i += 1;
    }
    proof {
        assert(entries@.take(entries@.len() as int) =~= entries@);
    }
    if file_list.len() == 0 {
        proof {
            assert(descriptors_of(entries@).len() == file_list@.map_values(
                |f: FileInfo| f@,
            ).len());
        }
        return Err(Error::InvalidResponse);
    }
    Ok(file_list)
}

/// Parses and validates a manifest body. The body must be a JSON array
/// that yields at least one descriptor; the descriptors come back in
/// manifest order. Anything else — text that is not JSON, a document
/// whose top level is not an array, or an array with no valid entry —
/// fails with `InvalidResponse`.
pub fn file_list_from_body(body: &str) -> (r: Result<Vec<FileInfo>, Error>)
    ensures
        match r {
            Ok(list) => manifest_of(body@) matches ParsedManifest::Entries(es)
                && list@.map_values(|f: FileInfo| f@) == descriptors_of(es@)
                && descriptors_of(es@).len() > 0,
            Err(e) => e == Error::InvalidResponse && match manifest_of(body@) {
                ParsedManifest::Entries(es) => descriptors_of(es@).len() == 0,
                ParsedManifest::NotArray => true,
            },
        },
{
    match parse_manifest(body) {
        ParsedManifest::Entries(es) => create_file_list(es),
        ParsedManifest::NotArray => Err(Error::InvalidResponse),
    }
}

} // verus!
