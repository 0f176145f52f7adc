//! What the profile discovery needs to know of the file system, as plain
//! values: which paths are regular files, the sub-directories of some
//! directories, and the text of some files.

use vstd::prelude::*;

use crate::paths::string_views;
use crate::text::{chars_eq, str_chars};

verus! {

/// The names of the sub-directories of `dir`.
#[derive(Clone, Debug)]
pub struct DirListing {
    pub dir: String,
    pub sub_dirs: Vec<String>,
}

/// The text of the regular file at `path`.
#[derive(Clone, Debug)]
pub struct TextFile {
    pub path: String,
    pub text: String,
}

/// A view of the parts of the file system that profile discovery reads.
#[derive(Clone, Debug)]
pub struct FsSnapshot {
    /// Paths known to be regular files.
    pub files: Vec<String>,
    /// Directories whose sub-directories were listed.
    pub dirs: Vec<DirListing>,
    /// Files whose text was read.
    pub texts: Vec<TextFile>,
}

/// `path` is a regular file.
pub open spec fn fs_is_file(fs: FsSnapshot, path: Seq<char>) -> bool {
    string_views(fs.files@).contains(path)
}

pub open spec fn listing_from(dirs: Seq<DirListing>, dir: Seq<char>, i: int) -> Seq<Seq<char>>
    decreases dirs.len() - i,
{
    if i < 0 || i >= dirs.len() {
        Seq::empty()
    } else if dirs[i].dir@ == dir {
        string_views(dirs[i].sub_dirs@)
    } else {
        listing_from(dirs, dir, i + 1)
    }
}

/// The names of the sub-directories of `dir` (none when it was not listed).
pub open spec fn fs_sub_dirs(fs: FsSnapshot, dir: Seq<char>) -> Seq<Seq<char>> {
    listing_from(fs.dirs@, dir, 0)
}

pub open spec fn text_from(texts: Seq<TextFile>, path: Seq<char>, i: int) -> Option<Seq<char>>
    decreases texts.len() - i,
{
    if i < 0 || i >= texts.len() {
        None
    } else if texts[i].path@ == path {
        Some(texts[i].text@)
    } else {
        text_from(texts, path, i + 1)
    }
}

/// The text of the file at `path`, when it could be read.
pub open spec fn fs_text(fs: FsSnapshot, path: Seq<char>) -> Option<Seq<char>> {
    text_from(fs.texts@, path, 0)
}

impl FsSnapshot {
    /// Whether `path` is a regular file (see [`fs_is_file`]).
    pub fn is_file(&self, path: &str) -> (res: bool)
        ensures
            res == fs_is_file(*self, path@),
    {
        let p = str_chars(path);
        let mut i: usize = 0;
        while i < self.files.len()
            invariant
                i <= self.files@.len(),
                p@ == path@,
                forall|j: int| 0 <= j < i ==> self.files@[j]@ != path@,
            decreases self.files@.len() - i,
        {
            if chars_eq(str_chars(self.files[i].as_str()).as_slice(), p.as_slice()) {
                assert(string_views(self.files@)[i as int] == path@);
                return true;
            }
            i += 1;
        }
        assert(!string_views(self.files@).contains(path@)) by {
            if string_views(self.files@).contains(path@) {
                let k = choose|k: int|
                    0 <= k < string_views(self.files@).len() && string_views(self.files@)[k]
                        == path@;
                assert(self.files@[k]@ == path@);
            }
        }
        false
    }

    /// The names of the sub-directories of `dir` (see [`fs_sub_dirs`]).
    pub fn sub_dirs(&self, dir: &str) -> (res: Vec<String>)
        ensures
            string_views(res@) == fs_sub_dirs(*self, dir@),
    {
        let d = str_chars(dir);
        let mut i: usize = 0;
        while i < self.dirs.len()
            invariant
                i <= self.dirs@.len(),
                d@ == dir@,
                fs_sub_dirs(*self, dir@) == listing_from(self.dirs@, dir@, i as int),
            decreases self.dirs@.len() - i,
        {
            if chars_eq(str_chars(self.dirs[i].dir.as_str()).as_slice(), d.as_slice()) {
                return copy_strings(&self.dirs[i].sub_dirs);
            }
            i += 1;
        }
        let empty: Vec<String> = Vec::new();
        assert(string_views(empty@) =~= Seq::empty());
        empty
    }

    /// The text of the file at `path` (see [`fs_text`]).
    pub fn text(&self, path: &str) -> (res: Option<String>)
        ensures
            match (res, fs_text(*self, path@)) {
                (Some(r), Some(e)) => r@ == e,
                (None, None) => true,
                _ => false,
            },
    {
        let p = str_chars(path);
        let mut i: usize = 0;
        while i < self.texts.len()
            invariant
                i <= self.texts@.len(),
                p@ == path@,
                fs_text(*self, path@) == text_from(self.texts@, path@, i as int),
            decreases self.texts@.len() - i,
        {
            if chars_eq(str_chars(self.texts[i].path.as_str()).as_slice(), p.as_slice()) {
                return Some(self.texts[i].text.clone());
            }
            i += 1;
        }
        None
    }
}

/// A copy of a list of strings.
pub fn copy_strings(v: &Vec<String>) -> (res: Vec<String>)
    ensures
        string_views(res@) == string_views(v@),
{
    let mut out: Vec<String> = Vec::new();
    let mut i: usize = 0;
    while i < v.len()
        invariant
            i <= v@.len(),
            string_views(out@) == string_views(v@).take(i as int),
        decreases v@.len() - i,
    {
        let s = v[i].clone();
        let ghost before = out@;
        out.push(s);
        assert(string_views(out@) =~= string_views(before).push(s@));
        assert(string_views(v@).take(i + 1) =~= string_views(v@).take(i as int).push(v@[i as int]@));
        i += 1;
    }
    assert(string_views(v@).take(i as int) =~= string_views(v@));
    out
}

} // verus!
