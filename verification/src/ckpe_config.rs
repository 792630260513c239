//! The Creation Kit extender's configuration, read from its file's text.
//!
//! The extender ships three configuration formats, and the build depends
//! on two things in them: the pointer-handle setting, which precombine
//! generation requires, and the Creation Kit's log file path, which the
//! log classification needs.  The caller reads the file; the parsing of
//! its text is decided here, line by line.

use vstd::prelude::*;

use crate::strutil::{
    eq_ic_seq, seq_views, split_char, split_seq, starts_with_seq, str_ends_with, str_eq,
    str_eq_ic, str_starts_with, lemma_split_len_pos, trim_ascii, trim_matches_char, trimmed,
    trimmed_matches, ends_with_seq,
};

verus! {

/// The configuration file's format.
#[derive(Debug, Clone, Copy, PartialEq, Eq, Structural)]
pub enum ConfigType {
    /// The newest format; settings may sit anywhere.
    TOML,
    /// The older format; the log path sits in the `Log` section.
    INI,
    /// The legacy file; the log path sits in the `CreationKit_Log` section.
    Fallout4TestINI,
}

/// Why the configuration was rejected.
#[derive(Debug, Clone, Copy, PartialEq, Eq, Structural)]
pub enum CkpeError {
    /// The pointer-handle setting is absent or not `true`; precombine
    /// generation requires it.
    PointerHandleDisabled,
}

/// The lines of a configuration text.
pub open spec fn lines_of(content: Seq<char>) -> Seq<Seq<char>> {
    split_seq(content, '\n')
}

/// A comment line, once trimmed.
pub open spec fn is_comment_line(t: Seq<char>) -> bool {
    starts_with_seq(t, ";"@) || starts_with_seq(t, "#"@)
}

/// The line has a value part: an `=` with something after it.
pub open spec fn has_value(t: Seq<char>) -> bool {
    split_seq(t, '=').len() >= 2
}

/// The value between the line's first `=` and its second (or its end),
/// trimmed of whitespace.
pub open spec fn line_value(t: Seq<char>) -> Seq<char> {
    trimmed(split_seq(t, '=')[1])
}

/// A trimmed line that turns the pointer-handle setting on.  The setting's
/// name has been spelled three ways across extender versions; all share
/// this prefix, and the `b` prefix means only `true` enables it.
pub open spec fn enables_pointer_handle(line: Seq<char>) -> bool {
    let t = trimmed(line);
    &&& !is_comment_line(t)
    &&& starts_with_seq(t, "bBSPointerHandle"@)
    &&& has_value(t)
    &&& eq_ic_seq(line_value(t), "true"@)
}

/// Some line of the text enables the pointer-handle setting.
pub open spec fn spec_pointer_handle_enabled(content: Seq<char>) -> bool {
    exists|i: int|
        0 <= i < lines_of(content).len() && enables_pointer_handle(lines_of(content)[i])
}

/// A section header, once trimmed: `[name]`.
pub open spec fn is_section_line(t: Seq<char>) -> bool {
    starts_with_seq(t, "["@) && ends_with_seq(t, "]"@)
}

/// The name inside a section header.
pub open spec fn section_of(t: Seq<char>) -> Seq<char> {
    t.subrange(1, t.len() - 1)
}

/// Whether a log-path line counts in this section for this format.
pub open spec fn section_matches(ct: ConfigType, section: Seq<char>) -> bool {
    match ct {
        ConfigType::TOML => true,
        ConfigType::INI => eq_ic_seq(section, "Log"@),
        ConfigType::Fallout4TestINI => eq_ic_seq(section, "CreationKit_Log"@),
    }
}

/// A trimmed line that names the log file, in any of the three key
/// spellings.
pub open spec fn is_log_key_line(t: Seq<char>) -> bool {
    starts_with_seq(t, "sOutputFile"@) || starts_with_seq(t, "OutputFile"@) || starts_with_seq(
        t,
        "sLogFile"@,
    )
}

/// The log path a line carries: its value, with surrounding quotes
/// removed.
pub open spec fn log_value(t: Seq<char>) -> Seq<char> {
    trimmed_matches(line_value(t), '"')
}

/// A usable log path: non-empty and not the word `none`.
pub open spec fn log_value_ok(v: Seq<char>) -> bool {
    v.len() > 0 && !eq_ic_seq(v, "none"@)
}

/// The log path the text names, scanning from line `i` with the given
/// current section: comments are skipped, section headers switch the
/// section, and the first log-path line that counts in its section and
/// carries a usable value wins.
pub open spec fn spec_extract_log_path(
    lines: Seq<Seq<char>>,
    i: int,
    section: Seq<char>,
    ct: ConfigType,
) -> Option<Seq<char>>
    decreases lines.len() - i,
{
    if i < 0 || i >= lines.len() {
        None
    } else {
        let t = trimmed(lines[i]);
        if is_comment_line(t) {
            spec_extract_log_path(lines, i + 1, section, ct)
        } else if is_section_line(t) {
            spec_extract_log_path(lines, i + 1, section_of(t), ct)
        } else if section_matches(ct, section) && is_log_key_line(t) && has_value(t)
            && log_value_ok(log_value(t)) {
            Some(log_value(t))
        } else {
            spec_extract_log_path(lines, i + 1, section, ct)
        }
    }
}

/// The format a configuration file's path announces: by the name's
/// extension (what follows its last dot), `toml` means the newest format,
/// and `ini` the older one unless the name is the legacy file's.
pub open spec fn spec_config_type(path: Seq<char>) -> ConfigType {
    let name = spec_file_name(path);
    let parts = split_seq(name, '.');
    if parts.len() >= 2 && parts.last() == "toml"@ {
        ConfigType::TOML
    } else if parts.len() >= 2 && parts.last() == "ini"@ && eq_ic_seq(
        name,
        "fallout4_test.ini"@,
    ) {
        ConfigType::Fallout4TestINI
    } else {
        ConfigType::INI
    }
}

/// The file name at the end of a path, under either separator.
pub open spec fn spec_file_name(path: Seq<char>) -> Seq<char> {
    split_seq(split_seq(path, '\\').last(), '/').last()
}

/// The extender's settings the build depends on.
#[derive(Debug)]
pub struct CKPEConfig {
    /// Path of the configuration file the settings came from.
    pub config_path: String,
    /// Whether the pointer-handle setting is on.
    pub pointer_handle_enabled: bool,
    /// Path of the Creation Kit's log file, if the configuration names one.
    pub log_file_path: Option<String>,
    /// The configuration file's format.
    pub config_type: ConfigType,
}

impl CKPEConfig {
    /// Parse a configuration from its file path and its text.
    pub fn parse(config_path: &str, content: &str) -> (r: CKPEConfig)
        ensures
            r.config_path@ == config_path@,
            r.config_type == spec_config_type(config_path@),
            r.pointer_handle_enabled == spec_pointer_handle_enabled(content@),
            match spec_extract_log_path(lines_of(content@), 0, Seq::empty(), spec_config_type(
                config_path@,
            )) {
                None => r.log_file_path is None,
                Some(v) => r.log_file_path matches Some(p) && p@ == v,
            },
    {
        let config_type = Self::detect_config_type(config_path);
        let pointer_handle_enabled = Self::check_pointer_handle_setting(content, config_type);
        let log_file_path = Self::extract_log_file_path(content, config_type);
        CKPEConfig {
            config_path: config_path.to_owned(),
            pointer_handle_enabled,
            log_file_path,
            config_type,
        }
    }

    /// The format the file's name announces.
    fn detect_config_type(config_path: &str) -> (r: ConfigType)
        ensures
            r == spec_config_type(config_path@),
    {
        let back = split_char(config_path, '\\');
        proof {
            lemma_split_len_pos(config_path@, '\\');
            assert(seq_views(back@)[back@.len() - 1] == back@[back@.len() - 1]@);
        }
        let after_back = back[back.len() - 1].as_str();
        let fwd = split_char(after_back, '/');
        proof {
            lemma_split_len_pos(after_back@, '/');
            assert(seq_views(fwd@)[fwd@.len() - 1] == fwd@[fwd@.len() - 1]@);
        }
        let name = fwd[fwd.len() - 1].as_str();
        let parts = split_char(name, '.');
        proof {
            lemma_split_len_pos(name@, '.');
            assert(seq_views(parts@)[parts@.len() - 1] == parts@[parts@.len() - 1]@);
        }
        let np = parts.len();
        if np >= 2 && str_eq(parts[np - 1].as_str(), "toml") {
            ConfigType::TOML
        } else if np >= 2 && str_eq(parts[np - 1].as_str(), "ini") && str_eq_ic(
            name,
            "fallout4_test.ini",
        ) {
            ConfigType::Fallout4TestINI
        } else {
            ConfigType::INI
        }
    }

    /// Whether some line of the text enables the pointer-handle setting.
    ///
    /// All three spellings of the setting's name share the checked prefix,
    /// so the formats need no separate handling here.
    pub fn check_pointer_handle_setting(content: &str, config_type: ConfigType) -> (r: bool)
        ensures
            r == spec_pointer_handle_enabled(content@),
    {
        let _ = config_type;
        let lines = split_char(content, '\n');
        let n = lines.len();
        let mut i: usize = 0;
        while i < n
            invariant
                i <= n,
                n == lines@.len(),
                seq_views(lines@) == lines_of(content@),
                forall|k: int| 0 <= k < i ==> !enables_pointer_handle(lines_of(content@)[k]),
            decreases n - i,
        {
            proof {
                assert(seq_views(lines@)[i as int] == lines@[i as int]@);
            }
            let t = trim_ascii(lines[i].as_str());
            if !str_starts_with(t, ";") && !str_starts_with(t, "#") && str_starts_with(
                t,
                "bBSPointerHandle",
            ) {
                let parts = split_char(t, '=');
                if parts.len() >= 2 {
                    proof {
                        assert(seq_views(parts@)[1] == parts@[1]@);
                    }
                    let v = trim_ascii(parts[1].as_str());
                    if str_eq_ic(v, "true") {
                        proof {
                            assert(enables_pointer_handle(lines_of(content@)[i as int]));
                        }
                        return true;
                    }
                }
            }
            i += 1;
        }
        proof {
            if spec_pointer_handle_enabled(content@) {
                let k = choose|k: int|
                    0 <= k < lines_of(content@).len() && enables_pointer_handle(
                        lines_of(content@)[k],
                    );
            }
        }
        false
    }

    /// The log file path the text names, if any.
    pub fn extract_log_file_path(content: &str, config_type: ConfigType) -> (r: Option<String>)
        ensures
            match spec_extract_log_path(lines_of(content@), 0, Seq::empty(), config_type) {
                None => r is None,
                Some(v) => r matches Some(p) && p@ == v,
            },
    {
        let lines = split_char(content, '\n');
        let n = lines.len();
        let mut section: String = String::new();
        let mut i: usize = 0;
        proof {
            assert(section@ =~= Seq::<char>::empty());
        }
        while i < n
            invariant
                i <= n,
                n == lines@.len(),
                seq_views(lines@) == lines_of(content@),
                spec_extract_log_path(lines_of(content@), 0, Seq::empty(), config_type)
                    == spec_extract_log_path(lines_of(content@), i as int, section@, config_type),
            decreases n - i,
        {
            proof {
                assert(seq_views(lines@)[i as int] == lines@[i as int]@);
            }
            let t = trim_ascii(lines[i].as_str());
            if str_starts_with(t, ";") || str_starts_with(t, "#") {
                // comment: the section and the search go on unchanged
            } else if str_starts_with(t, "[") && str_ends_with(t, "]") {
                let tn = t.unicode_len();
                proof {
                    reveal_strlit("[");
                    reveal_strlit("]");
                    assert(t@.subrange(0, 1)[0] == '[');
                    assert(t@.subrange(tn - 1, tn as int)[0] == ']');
                    assert(t@[0] == '[' && t@[tn - 1] == ']');
                    assert(tn >= 2);
                }
                section = t.substring_char(1, tn - 1).to_owned();
            } else {
                let in_section = match config_type {
                    ConfigType::TOML => true,
                    ConfigType::INI => str_eq_ic(section.as_str(), "Log"),
                    ConfigType::Fallout4TestINI => str_eq_ic(section.as_str(), "CreationKit_Log"),
                };
                if in_section && (str_starts_with(t, "sOutputFile") || str_starts_with(
                    t,
                    "OutputFile",
                ) || str_starts_with(t, "sLogFile")) {
                    let parts = split_char(t, '=');
                    if parts.len() >= 2 {
                        proof {
                            assert(seq_views(parts@)[1] == parts@[1]@);
                        }
                        let v0 = trim_ascii(parts[1].as_str());
                        let v = trim_matches_char(v0, '"');
                        if v.unicode_len() > 0 && !str_eq_ic(v, "none") {
                            return Some(v.to_owned());
                        }
                    }
                }
            }
            i += 1;
        }
        None
    }

    /// Validate that required settings are present: the pointer-handle
    /// setting must be on.
    pub fn validate(&self) -> (r: Result<(), CkpeError>)
        ensures
            r is Ok <==> self.pointer_handle_enabled,
            r is Err ==> r == Result::<(), CkpeError>::Err(CkpeError::PointerHandleDisabled),
    {
        if !self.pointer_handle_enabled {
            return Err(CkpeError::PointerHandleDisabled);
        }
        Ok(())
    }
}

} // verus!
