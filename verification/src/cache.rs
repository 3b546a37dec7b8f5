//! The version cache: one local marker file holding the version identifier
//! of the last successfully installed release.
//!
//! The host reads and writes the file; this module owns the meaning of its
//! contents and the comparison policy. Versions are opaque strings compared
//! only for byte-equality: any difference — including a first-ever run with
//! no stored value — triggers a reinstall attempt.

use vstd::prelude::*;
use crate::config::trim_str;
use crate::config::trimmed_of;
use vstd::string::*;

verus! {

/// The version a cache file with these contents holds: its trimmed
/// contents, where empty means none. An absent or empty file is "no
/// version installed yet", never an error.
pub open spec fn cache_value_of(contents: Seq<char>) -> Option<Seq<char>> {
    if trimmed_of(contents).len() == 0 {
        None
    } else {
        Some(trimmed_of(contents))
    }
}

/// Interprets the raw contents of the version-cache file.
pub fn cache_contents_value(contents: &str) -> (r: Option<String>)
    ensures
        r.deep_view() == cache_value_of(contents@),
{
    let t = trim_str(contents);
    if t.as_str().unicode_len() == 0 {
        None
    } else {
        Some(t)
    }
}

/// Whether a fetched release calls for an install: always on a first run
/// (no cached version), otherwise exactly when the version identifiers
/// differ. There is no semantic ordering, only byte-equality.
pub open spec fn install_needed(cached: Option<Seq<char>>, version: Seq<char>) -> bool {
    match cached {
        Some(c) => c != version,
        None => true,
    }
}

/// Decides whether the fetched release version calls for an install.
pub fn needs_install(cached: &Option<String>, version: &String) -> (r: bool)
    ensures
        r == install_needed(cached.deep_view(), version@),
{
    match cached {
        Some(c) => !(*c == *version),
        None => true,
    }
}

} // verus!
