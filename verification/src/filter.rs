//! File-type filters: the portable (extension, description) pair supplied by
//! callers, and its platform form with the extension rendered as a wildcard
//! pattern and both fields encoded as null-terminated wide text.

use vstd::prelude::*;
use crate::codec::wide_of;
use crate::codec::FileDialogUtils;

verus! {

/// A portable file-type filter: an extension (without a leading dot or
/// wildcard) and a human-readable description.
#[derive(Debug)]
pub struct FileTypeFilter {
    extension: String,
    description: String,
}

impl FileTypeFilter {
    pub closed spec fn spec_extension(&self) -> Seq<char> {
        self.extension@
    }

    pub closed spec fn spec_description(&self) -> Seq<char> {
        self.description@
    }

    pub fn new(extension: String, description: String) -> (r: Self)
        ensures
            r.spec_extension() == extension@,
            r.spec_description() == description@,
    {
        Self { extension, description }
    }

    pub fn get_extension(&self) -> (r: &str)
        ensures
            r@ == self.spec_extension(),
    {
        self.extension.as_str()
    }

    pub fn get_description(&self) -> (r: &str)
        ensures
            r@ == self.spec_description(),
    {
        self.description.as_str()
    }
}

/// The wildcard pattern the platform expects for an extension: `*.` ahead of
/// the extension itself.
pub open spec fn pattern_of(ext: Seq<char>) -> Seq<char> {
    seq!['*', '.'] + ext
}

/// A filter in the platform's form: the pattern and the description, both as
/// null-terminated wide text. It lives only for one dialog configuration call.
#[derive(Debug)]
pub struct FileTypeFilterWin32 {
    extension: Vec<u16>,
    description: Vec<u16>,
}

/// The platform form `w` encodes the portable filter with extension `ext` and
/// description `desc`.
pub open spec fn is_platform_form(w: FileTypeFilterWin32, ext: Seq<char>, desc: Seq<char>) -> bool {
    &&& w.spec_extension() == wide_of(pattern_of(ext)).push(0u16)
    &&& w.spec_description() == wide_of(desc).push(0u16)
}

impl FileTypeFilterWin32 {
    pub closed spec fn spec_extension(&self) -> Seq<u16> {
        self.extension@
    }

    pub closed spec fn spec_description(&self) -> Seq<u16> {
        self.description@
    }

    pub fn new(extension: &str, description: &str) -> (r: Self)
        ensures
            is_platform_form(r, extension@, description@),
    {
        let mut pattern: String = String::from_str("*.");
        proof {
            reveal_strlit("*.");
            assert("*."@ =~= seq!['*', '.']);
        }
        pattern.append(extension);
        let wide_extension = FileDialogUtils::to_win32_wide(pattern.as_str());
        let wide_description = FileDialogUtils::to_win32_wide(description);
        proof {
            assert(pattern@ == pattern_of(extension@));
        }
        Self { extension: wide_extension, description: wide_description }
    }

    pub fn get_extension(&self) -> (r: &[u16])
        ensures
            r@ == self.spec_extension(),
    {
        self.extension.as_slice()
    }

    pub fn get_description(&self) -> (r: &[u16])
        ensures
            r@ == self.spec_description(),
    {
        self.description.as_slice()
    }
}

/// A platform filter list encodes the portable filter list element by element.
pub open spec fn encodes_filters(fs: Seq<FileTypeFilter>, ws: Seq<FileTypeFilterWin32>) -> bool {
    &&& ws.len() == fs.len()
    &&& forall|i: int|
        0 <= i < fs.len() ==> is_platform_form(
            #[trigger] ws[i],
            fs[i].spec_extension(),
            fs[i].spec_description(),
        )
}

/// Prepares the platform form of every filter in the list, in order.
pub fn encode_filters(fs: &Vec<FileTypeFilter>) -> (r: Vec<FileTypeFilterWin32>)
    ensures
        encodes_filters(fs@, r@),
{
    let mut r: Vec<FileTypeFilterWin32> = Vec::new();
    let mut i: usize = 0;
    while i < fs.len()
        invariant
            i <= fs.len(),
            encodes_filters(fs@.subrange(0, i as int), r@),
        decreases fs.len() - i,
    {
        let f = &fs[i];
        r.push(FileTypeFilterWin32::new(f.get_extension(), f.get_description()));
        proof {
            assert(fs@.subrange(0, i as int + 1) =~= fs@.subrange(0, i as int).push(fs@[i as int]));
        }
        i += 1;
    }
    proof {
        assert(fs@.subrange(0, fs@.len() as int) =~= fs@);
    }
    r
}

} // verus!
