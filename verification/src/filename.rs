//! File names: stem, extension, and which names are posts.
//!
//! A name is the last component of a path, as raw bytes. It is split at its
//! last dot, as `std::path::Path` splits it: a name without a dot, or whose
//! only dot comes first, has no extension and is its own stem.

use vstd::prelude::*;
use vstd::slice::slice_subrange;
use crate::encoding::{decode_text, text_of};

verus! {

/// ASCII code of the dot that starts an extension.
pub const DOT: u8 = 0x2e;

/// Whether the last dot of `name` stands at index `at`.
pub open spec fn is_last_dot(name: Seq<u8>, at: int) -> bool {
    &&& 0 <= at < name.len()
    &&& name[at] == DOT
    &&& forall|i: int| at < i < name.len() ==> #[trigger] name[i] != DOT
}

/// Whether `name` is the parent-directory name `..`, which is never split.
pub open spec fn is_parent_name(name: Seq<u8>) -> bool {
    name.len() == 2 && name[0] == DOT && name[1] == DOT
}

/// Where `name` is split into stem and extension: at its last dot, unless
/// that dot comes first or the name is `..`.
pub open spec fn split_point(name: Seq<u8>) -> Option<int> {
    if exists|at: int| is_last_dot(name, at) {
        let at = choose|at: int| is_last_dot(name, at);
        if at == 0 || is_parent_name(name) {
            None
        } else {
            Some(at)
        }
    } else {
        None
    }
}

/// The extension of `name`: what follows the dot at which it is split.
pub open spec fn extension(name: Seq<u8>) -> Option<Seq<u8>> {
    match split_point(name) {
        Some(at) => Some(name.skip(at + 1)),
        None => None,
    }
}

/// The stem of `name`: what comes before the dot at which it is split, or
/// the whole name when it is not split.
pub open spec fn file_stem(name: Seq<u8>) -> Seq<u8> {
    match split_point(name) {
        Some(at) => name.take(at),
        None => name,
    }
}

/// The lower-case form of an ASCII letter; any other byte is unchanged.
pub open spec fn ascii_lower(byte: u8) -> u8 {
    if 0x41 <= byte <= 0x5a {
        (byte + 0x20) as u8
    } else {
        byte
    }
}

/// Whether an extension is `md`, whatever the case of its letters.
pub open spec fn is_markdown_extension(ext: Seq<u8>) -> bool {
    ext.len() == 2 && ascii_lower(ext[0]) == 0x6d && ascii_lower(ext[1]) == 0x64
}

/// Whether `name` is the name of a markdown file.
pub open spec fn is_markdown_name(name: Seq<u8>) -> bool {
    extension(name) matches Some(ext) && is_markdown_extension(ext)
}

/// The post identifier that a file name stands for: the stem of a markdown
/// file, read as text. Other files, and markdown files whose stem is not
/// text, stand for no post.
pub open spec fn post_stem(name: Seq<u8>) -> Option<Seq<char>> {
    if is_markdown_name(name) {
        text_of(file_stem(name))
    } else {
        None
    }
}

/// A name has at most one last dot.
pub proof fn last_dot_unique(name: Seq<u8>, at: int)
    requires
        is_last_dot(name, at),
    ensures
        (choose|other: int| is_last_dot(name, other)) == at,
{
    let other = choose|other: int| is_last_dot(name, other);
    if other < at {
        assert(name[at] != DOT);
    } else if at < other {
        assert(name[other] != DOT);
    }
}

/// Finds the dot at which a file name is split, if it is split.
pub fn find_split_point(name: &[u8]) -> (at: Option<usize>)
    ensures
        match at {
            Some(k) => split_point(name@) == Some(k as int),
            None => split_point(name@) is None,
        },
{
    let n = name.len();
    let mut i: usize = n;
    while i > 0 && name[i - 1] != DOT
        invariant
            i <= n,
            n == name@.len(),
            forall|j: int| i <= j < n ==> #[trigger] name@[j] != DOT,
        decreases i,
    {
        i = i - 1;
    }
    if i == 0 {
        assert forall|at: int| !is_last_dot(name@, at) by {
            if 0 <= at < n {
                assert(name@[at] != DOT);
            }
        }
        return None;
    }
    proof {
        last_dot_unique(name@, i - 1);
    }
    if i == 1 || (n == 2 && name[0] == DOT) {
        None
    } else {
        Some(i - 1)
    }
}

/// Lower-cases an ASCII letter.
pub fn to_ascii_lower(byte: u8) -> (lower: u8)
    ensures
        lower == ascii_lower(byte),
{
    if 0x41 <= byte && byte <= 0x5a {
        byte + 0x20
    } else {
        byte
    }
}

/// Tells whether a file name has the markdown extension, in any case.
pub fn has_markdown_extension(name: &[u8]) -> (markdown: bool)
    ensures
        markdown == is_markdown_name(name@),
{
    match find_split_point(name) {
        None => false,
        Some(at) => {
            let n = name.len();
            if n - at - 1 != 2 {
                return false;
            }
            to_ascii_lower(name[at + 1]) == 0x6d && to_ascii_lower(name[at + 2]) == 0x64
        },
    }
}

/// Derives the post identifier from a file name, if the file is a post.
pub fn stem_of_post(name: &[u8]) -> (stem: Option<String>)
    ensures
        match stem {
            Some(text) => post_stem(name@) == Some(text@),
            None => post_stem(name@) is None,
        },
{
    if !has_markdown_extension(name) {
        return None;
    }
    match find_split_point(name) {
        None => None,
        Some(at) => decode_text(slice_subrange(name, 0, at)),
    }
}

} // verus!
