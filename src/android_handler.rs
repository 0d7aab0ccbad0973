//! Recognition of platform content references, which name a document
//! through a content provider rather than a file-system path.
use vstd::prelude::*;

use crate::text::{has_prefix, starts_with};

verus! {

/// The scheme that marks a content reference.
pub open spec fn content_scheme() -> Seq<char> {
    seq!['c', 'o', 'n', 't', 'e', 'n', 't', ':', '/', '/']
}

/// Whether `path` is a content reference (it begins with `content://`)
/// rather than a file-system path.
pub fn is_content_uri(path: &str) -> (r: bool)
    ensures
        r == has_prefix(path@, content_scheme()),
{
    let scheme = "content://";
    proof {
        reveal_strlit("content://");
        assert(scheme@ =~= content_scheme());
    }
    starts_with(path, scheme)
}

} // verus!
