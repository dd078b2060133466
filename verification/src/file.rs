use vstd::prelude::*;

verus! {

/// A validated manifest entry: where to fetch the content from, the local
/// destination filename, and the size the manifest declares for it.
#[derive(Clone, Debug)]
pub struct FileInfo {
    pub url: String,
    pub name: String,
    pub size: u64,
}

/// The mathematical content of a `FileInfo`.
pub struct FileInfoModel {
    pub url: Seq<char>,
    pub name: Seq<char>,
    pub size: u64,
}

impl View for FileInfo {
    type V = FileInfoModel;

    open spec fn view(&self) -> FileInfoModel {
        FileInfoModel { url: self.url@, name: self.name@, size: self.size }
    }
}

} // verus!
