//! The rules of the profile and settings storage: which characters a
//! profile name keeps, the file names a profile is saved under, how much of
//! the diagnostics log is read back, and where the data directory is. The
//! application does the file system work.
use crate::error::{AppError, ErrorKind};
use crate::text::{char_is_alphanumeric, chars_of, is_alphanumeric, push_char};
use crate::worker::is_error;
use vstd::prelude::*;
use vstd::string::{StrSliceExecFns, StringExecFns};

verus! {

/// Application settings.
#[derive(Debug, Clone, Copy, PartialEq, Eq, Structural)]
pub struct Settings {
    pub auto_pull_on_connect: bool,
    pub skip_push_verification: bool,
}

impl Default for Settings {
    fn default() -> (s: Settings)
        ensures
            !s.auto_pull_on_connect,
            !s.skip_push_verification,
    {
        Settings { auto_pull_on_connect: false, skip_push_verification: false }
    }
}

/// Which panels of the interface are expanded.
#[derive(Debug, Clone, Copy, PartialEq, Eq, Structural)]
pub struct UiPreferences {
    pub advanced_filters_expanded: bool,
    pub diagnostics_expanded: bool,
}

impl Default for UiPreferences {
    fn default() -> (p: UiPreferences)
        ensures
            !p.advanced_filters_expanded,
            !p.diagnostics_expanded,
    {
        UiPreferences { advanced_filters_expanded: false, diagnostics_expanded: false }
    }
}

/// Whether a profile name keeps `c`: letters and digits, `_`, `-` and space.
pub open spec fn name_keeps(c: char) -> bool {
    char_is_alphanumeric(c) || c == '_' || c == '-' || c == ' '
}

/// The characters of `s` that a profile name keeps, in order.
pub open spec fn kept_chars(s: Seq<char>) -> Seq<char>
    decreases s.len(),
{
    if s.len() == 0 {
        Seq::empty()
    } else if name_keeps(s.last()) {
        kept_chars(s.drop_last()).push(s.last())
    } else {
        kept_chars(s.drop_last())
    }
}

/// A sanitized name is the name with every character dropped that is not
/// alphanumeric, `_`, `-` or a space, the others kept in order.
pub proof fn lemma_sanitize_filters_name(s: Seq<char>)
    ensures
        kept_chars(s) == s.filter(
            |c: char| char_is_alphanumeric(c) || c == '_' || c == '-' || c == ' ',
        ),
    decreases s.len(),
{
    reveal(Seq::filter);
    if s.len() > 0 {
        lemma_sanitize_filters_name(s.drop_last());
    }
}

/// The profile name made safe for a file name: only the characters it keeps.
pub fn sanitize_name(name: &str) -> (s: String)
    ensures
        s@ == kept_chars(name@),
        s@ == name@.filter(|c: char| char_is_alphanumeric(c) || c == '_' || c == '-' || c == ' '),
{
    proof {
        lemma_sanitize_filters_name(name@);
    }
    let chars = chars_of(name);
    let mut s = String::new();
    let mut i: usize = 0;
    while i < chars.len()
        invariant
            i <= chars@.len(),
            chars@ == name@,
            s@ == kept_chars(chars@.subrange(0, i as int)),
        decreases chars@.len() - i,
    {
        let c = chars[i];
        proof {
            let sub = chars@.subrange(0, i + 1);
            assert(sub.drop_last() =~= chars@.subrange(0, i as int));
            assert(sub.last() == c);
        }
        if is_alphanumeric(c) || c == '_' || c == '-' || c == ' ' {
            push_char(&mut s, c);
        }
        i = i + 1;
    }
    assert(chars@.subrange(0, i as int) =~= chars@);
    s
}

/// Sanitising twice changes nothing more: a sanitised name keeps all its
/// characters.
pub proof fn lemma_sanitize_idempotent(s: Seq<char>)
    ensures
        kept_chars(kept_chars(s)) == kept_chars(s),
    decreases s.len(),
{
    if s.len() > 0 {
        lemma_sanitize_idempotent(s.drop_last());
        let k = kept_chars(s.drop_last());
        if name_keeps(s.last()) {
            assert(k.push(s.last()).drop_last() =~= k);
        }
    }
}

/// The error for a profile name that keeps no character.
pub open spec fn invalid_name(e: AppError) -> bool {
    is_error(e, ErrorKind::StorageError, "Invalid profile name"@)
}

/// The file a profile is saved in and the temporary file it is written to
/// first: `"{name}.txt"` and `".{name}.tmp"` for its sanitised name, which
/// must not be empty.
pub fn profile_file_names(name: &str) -> (r: Result<(String, String), AppError>)
    ensures
        kept_chars(name@).len() == 0 ==> (r matches Err(e) && invalid_name(e)),
        kept_chars(name@).len() > 0 ==> (r matches Ok((f, t)) && f@ == kept_chars(name@) + ".txt"@
            && t@ == "."@ + kept_chars(name@) + ".tmp"@),
{
    let s = sanitize_name(name);
    if s.as_str().unicode_len() == 0 {
        return Err(AppError::new(ErrorKind::StorageError, "Invalid profile name"));
    }
    let mut file = s.clone();
    file.append(".txt");
    let mut tmp = String::from_str(".");
    tmp.append(s.as_str());
    tmp.append(".tmp");
    Ok((file, tmp))
}

/// Largest profile file that is read, in bytes.
pub const MAX_PROFILE_BYTES: u64 = 1048576;

/// Whether a profile file of `len` bytes is read (at most 1 MiB).
pub fn profile_size_allowed(len: u64) -> (b: bool)
    ensures
        b == (len <= MAX_PROFILE_BYTES),
{
    len <= MAX_PROFILE_BYTES
}

/// Largest diagnostics log that is read, in bytes; a larger one is deleted.
pub const MAX_DIAGNOSTICS_LOG_BYTES: u64 = 10485760;

/// Most lines the diagnostics log may hold before it is cut down.
pub const MAX_LOG_LINES: usize = 5000;

/// Which lines of a diagnostics log of `total` lines are read back for a
/// request of `limit`: the index of the first line kept, and whether the log
/// is rewritten with only those. A log over `MAX_LOG_LINES` keeps its last
/// `limit` lines, `limit` taken between 100 and 2000, and is rewritten; a
/// shorter one keeps its last `limit` lines.
pub fn recent_log_window(total: usize, limit: usize) -> (r: (usize, bool))
    ensures
        total > MAX_LOG_LINES ==> r.1 && r.0 == total - (if limit < 100 {
            100
        } else if limit > 2000 {
            2000
        } else {
            limit as int
        }),
        total <= MAX_LOG_LINES ==> !r.1 && r.0 == (if total > limit {
            total - limit
        } else {
            0
        }),
{
    if total > MAX_LOG_LINES {
        let keep: usize = if limit < 100 {
            100
        } else if limit > 2000 {
            2000
        } else {
            limit
        };
        (total - keep, true)
    } else if total > limit {
        (total - limit, false)
    } else {
        (0, false)
    }
}

/// Where the data directory comes from.
#[derive(Debug)]
pub enum BaseDir {
    /// The directory named by `FROST_TUNE_HOME`.
    Home(String),
    /// The `frost-tune` directory inside the platform's data directory.
    InDataDir(String),
}

/// Chooses the data directory: `FROST_TUNE_HOME` (`env_home`) unless running
/// as root, else the platform data directory (`data_dir`); without either,
/// an error that suggests the variable.
pub fn choose_base_dir(is_root: bool, env_home: Option<String>, data_dir: Option<String>) -> (r: Result<BaseDir, AppError>)
    ensures
        match (if is_root { None } else { env_home }) {
            Some(h) => r matches Ok(BaseDir::Home(p)) && p@ == h@,
            None => match data_dir {
                Some(d) => r matches Ok(BaseDir::InDataDir(p)) && p@ == d@,
                None => r matches Err(e) && is_error(
                    e,
                    ErrorKind::StorageError,
                    "Failed to get standard data directory. Set FROST_TUNE_HOME to override."@,
                ),
            },
        },
{
    let home = if is_root {
        None
    } else {
        env_home
    };
    match home {
        Some(h) => Ok(BaseDir::Home(h)),
        None => match data_dir {
            Some(d) => Ok(BaseDir::InDataDir(d)),
            None => Err(
                AppError::new(
                    ErrorKind::StorageError,
                    "Failed to get standard data directory. Set FROST_TUNE_HOME to override.",
                ),
            ),
        },
    }
}

/// The name of the application directory inside the platform data directory.
pub const APP_DIR_NAME: &'static str = "frost-tune";

/// The name of the diagnostics log inside the data directory.
pub const DIAGNOSTICS_LOG_NAME: &'static str = "diagnostics.log";

/// The name of the settings file inside the data directory.
pub const SETTINGS_FILE_NAME: &'static str = "settings.json";

/// The name of the profiles directory inside the data directory.
pub const PROFILES_DIR_NAME: &'static str = "profiles";

} // verus!
