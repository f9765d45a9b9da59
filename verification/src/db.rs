//! Database location handling.

use vstd::prelude::*;
use crate::text::{has_prefix, starts_with_text};

verus! {

/// The file path of a `sqlite://` database url.
pub open spec fn sqlite_path(url: Seq<char>) -> Option<Seq<char>> {
    if has_prefix(url, "sqlite://"@) { Some(url.skip(("sqlite://"@).len() as int)) } else { None }
}

/// The file path a `sqlite://` url names; none for other urls.
pub fn sqlite_file_path(database_url: &str) -> (path: Option<String>)
    ensures
        match path {
            Some(p) => sqlite_path(database_url@) == Some(p@),
            None => sqlite_path(database_url@) is None,
        },
{
    let prefix = "sqlite://";
    if starts_with_text(database_url, prefix) {
        let n = database_url.unicode_len();
        let k = prefix.unicode_len();
        let rest = database_url.substring_char(k, n);
        assert(database_url@.subrange(k as int, n as int) =~= database_url@.skip(k as int));
        Some(rest.to_string())
    } else {
        None
    }
}

} // verus!
