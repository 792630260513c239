//! Rules for the plugin name a build run works on.

use vstd::prelude::*;

use crate::strutil::{
    contains_ic_seq, ends_with_ic_seq, ends_with_seq, seq_views, str_contains_char,
    str_contains_ic, str_ends_with, str_ends_with_ic,
};

verus! {

/// Why a plugin name was rejected.
#[derive(Debug, Clone, Copy, PartialEq, Eq, Structural)]
pub enum ValidationError {
    /// The name is empty.
    EmptyName,
    /// The name does not end in `.esp` or `.esm`.
    BadExtension,
    /// The name contains one of the reserved words `previs`,
    /// `combinedobjects` or `xprevispatch`.
    ReservedName,
    /// The name contains a space, which clean mode does not allow.
    SpacesInCleanMode,
}

/// The name carries a plugin extension, compared without case.
pub open spec fn has_plugin_extension(name: Seq<char>) -> bool {
    ends_with_ic_seq(name, ".esp"@) || ends_with_ic_seq(name, ".esm"@)
}

/// The name contains a reserved word, compared without case.
pub open spec fn contains_reserved_word(name: Seq<char>) -> bool {
    contains_ic_seq(name, "previs"@) || contains_ic_seq(name, "combinedobjects"@)
        || contains_ic_seq(name, "xprevispatch"@)
}

/// A plugin name the workflow accepts: non-empty, with a plugin extension,
/// free of reserved words, and free of spaces when clean mode is asked for.
pub open spec fn plugin_name_ok(name: Seq<char>, clean_mode: bool) -> bool {
    name.len() > 0 && has_plugin_extension(name) && !contains_reserved_word(name) && !(clean_mode
        && name.contains(' '))
}

/// Validate a plugin name.
///
/// The name must be non-empty, end with `.esp` or `.esm`, contain none of the
/// reserved words `previs`, `combinedobjects` and `xprevispatch`, and, in
/// clean mode, contain no spaces.  The checks run in that order and the first
/// failure is reported.
pub fn validate_plugin_name(name: &str, clean_mode: bool) -> (r: Result<(), ValidationError>)
    ensures
        r is Ok <==> plugin_name_ok(name@, clean_mode),
        name@.len() == 0 ==> r == Result::<(), ValidationError>::Err(ValidationError::EmptyName),
        name@.len() > 0 && !has_plugin_extension(name@) ==> r == Result::<
            (),
            ValidationError,
        >::Err(ValidationError::BadExtension),
        name@.len() > 0 && has_plugin_extension(name@) && contains_reserved_word(name@) ==> r
            == Result::<(), ValidationError>::Err(ValidationError::ReservedName),
        name@.len() > 0 && has_plugin_extension(name@) && !contains_reserved_word(name@)
            && clean_mode && name@.contains(' ') ==> r == Result::<(), ValidationError>::Err(
            ValidationError::SpacesInCleanMode,
        ),
{
    if name.unicode_len() == 0 {
        return Err(ValidationError::EmptyName);
    }
    if !str_ends_with_ic(name, ".esp") && !str_ends_with_ic(name, ".esm") {
        return Err(ValidationError::BadExtension);
    }
    if str_contains_ic(name, "previs") || str_contains_ic(name, "combinedobjects")
        || str_contains_ic(name, "xprevispatch") {
        return Err(ValidationError::ReservedName);
    }
    if clean_mode && str_contains_char(name, ' ') {
        return Err(ValidationError::SpacesInCleanMode);
    }
    Ok(())
}

/// `s` with every copy of the suffix `suf` removed from its end.
pub open spec fn stripped_of_suffix(s: Seq<char>, suf: Seq<char>) -> Seq<char>
    decreases s.len(),
{
    if suf.len() > 0 && s.len() >= suf.len() && s.subrange(s.len() - suf.len(), s.len() as int)
        == suf {
        stripped_of_suffix(s.subrange(0, s.len() - suf.len()), suf)
    } else {
        s
    }
}

/// The plugin name without its extension: every trailing `.esp`, then `.esm`,
/// then `.ESP`, then `.ESM` suffix removed, in that order.
pub open spec fn plugin_base_name(name: Seq<char>) -> Seq<char> {
    stripped_of_suffix(
        stripped_of_suffix(stripped_of_suffix(stripped_of_suffix(name, ".esp"@), ".esm"@), ".ESP"@),
        ".ESM"@,
    )
}

/// Removes every copy of `suf` from the end of `s`.
fn strip_suffix_all<'a>(s: &'a str, suf: &str) -> (r: &'a str)
    requires
        suf@.len() > 0,
    ensures
        r@ == stripped_of_suffix(s@, suf@),
{
    let mut cur: &str = s;
    loop
        invariant
            suf@.len() > 0,
            stripped_of_suffix(cur@, suf@) == stripped_of_suffix(s@, suf@),
        ensures
            cur@ == stripped_of_suffix(s@, suf@),
        decreases cur@.len(),
    {
        if !str_ends_with(cur, suf) {
            break;
        }
        let n = cur.unicode_len();
        let m = suf.unicode_len();
        proof {
            assert(ends_with_seq(cur@, suf@));
        }
        cur = cur.substring_char(0, n - m);
    }
    cur
}

/// Extract the plugin name without extension.
pub fn get_plugin_base_name(name: &str) -> (r: &str)
    ensures
        r@ == plugin_base_name(name@),
{
    proof {
        reveal_strlit(".esp");
        reveal_strlit(".esm");
        reveal_strlit(".ESP");
        reveal_strlit(".ESM");
    }
    let a = strip_suffix_all(name, ".esp");
    let b = strip_suffix_all(a, ".esm");
    let c = strip_suffix_all(b, ".ESP");
    strip_suffix_all(c, ".ESM")
}

/// Whether the plugin is among the files of the Data directory.
///
/// The caller hands in the file names the Data directory currently holds.
pub fn plugin_exists(data_files: &Vec<String>, plugin_name: &str) -> (r: bool)
    ensures
        r == seq_views(data_files@).contains(plugin_name@),
{
    crate::strutil::contains_str(data_files, plugin_name)
}

} // verus!
