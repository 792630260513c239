//! Small presentation helpers.

use vstd::prelude::*;

use crate::strutil::{concat3, split_char, split_seq};

verus! {

/// Get a simpler version string (just major.minor if available).
///
/// `version` is the full version string an executable's resources gave,
/// or `None` when none could be read.  The result keeps only the first
/// two dot-separated parts; a string without a dot passes through, and a
/// missing version reads `Unknown`.
pub fn get_simple_version(version: Option<&String>) -> (r: String)
    ensures
        match version {
            None => r@ == "Unknown"@,
            Some(v) => {
                let parts = split_seq(v@, '.');
                if parts.len() >= 2 {
                    r@ == parts[0] + "."@ + parts[1]
                } else {
                    r@ == v@
                }
            },
        },
{
    match version {
        None => "Unknown".to_owned(),
        Some(v) => {
            let parts = split_char(v.as_str(), '.');
            if parts.len() >= 2 {
                proof {
                    assert(crate::strutil::seq_views(parts@)[0] == parts@[0]@);
                    assert(crate::strutil::seq_views(parts@)[1] == parts@[1]@);
                }
                concat3(parts[0].as_str(), ".", parts[1].as_str())
            } else {
                proof {
                    assert(crate::strutil::seq_views(parts@).len() == parts@.len());
                }
                v.clone()
            }
        },
    }
}

} // verus!
