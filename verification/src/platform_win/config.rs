//! Settings of the Windows daemon, kept in `.xxkey_config` in the user's
//! profile directory; the file is read again when its modification time changed.

use vstd::prelude::*;
pub use crate::app_config::AppConfig;
use crate::app_config::{config_text, read_config, spec_config_text, spec_default_config, spec_read_config};
use crate::text::{chars_to_string, str_to_chars};

verus! {

/// Whether `c` separates path components on Windows.
pub open spec fn spec_is_win_separator(c: char) -> bool {
    c == '\\' || c == '/'
}

/// Whether `base` is a bare drive, such as `C:`.
pub open spec fn spec_is_bare_drive(base: Seq<char>) -> bool {
    base.len() == 2 && base[1] == ':'
        && (('a' <= base[0] && base[0] <= 'z') || ('A' <= base[0] && base[0] <= 'Z'))
}

/// Joins a relative path component to a path the way `PathBuf::push` does on
/// Windows: a `\` goes between them unless `base` is empty, ends in a
/// separator or is a bare drive.
pub open spec fn spec_join_windows(base: Seq<char>, part: Seq<char>) -> Seq<char> {
    if base.len() == 0 || spec_is_win_separator(base.last()) || spec_is_bare_drive(base) {
        base + part
    } else {
        base + seq!['\\'] + part
    }
}

/// Where the settings file is: `.xxkey_config` in `USERPROFILE`, else in
/// `HOME`, else in `.`.
pub open spec fn spec_win_config_path(user_profile: Option<Seq<char>>, home: Option<Seq<char>>) -> Seq<char> {
    let dir = match user_profile {
        Some(u) => u,
        None => match home {
            Some(h) => h,
            None => "."@,
        },
    };
    spec_join_windows(dir, ".xxkey_config"@)
}

/// Appends `part` to `base` as `spec_join_windows` does.
pub fn join_windows(base: &Vec<char>, part: &str) -> (r: Vec<char>)
    ensures r@ == spec_join_windows(base@, part@),
{
    let mut r: Vec<char> = Vec::new();
    let mut i: usize = 0;
    while i < base.len()
        invariant
            i <= base.len(),
            r@ == base@.subrange(0, i as int),
        decreases base.len() - i,
    {
        r.push(base[i]);
        i = i + 1;
    }
    let n = base.len();
    let ends_in_separator = n > 0 && (base[n - 1] == '\\' || base[n - 1] == '/');
    let bare_drive = n == 2 && base[1] == ':'
        && (('a' <= base[0] && base[0] <= 'z') || ('A' <= base[0] && base[0] <= 'Z'));
    if n > 0 && !ends_in_separator && !bare_drive {
        r.push('\\');
    }
    let p = str_to_chars(part);
    let ghost before = r@;
    let mut j: usize = 0;
    while j < p.len()
        invariant
            j <= p.len(),
            r@ == before + p@.subrange(0, j as int),
        decreases p.len() - j,
    {
        r.push(p[j]);
        assert(p@.subrange(0, j + 1) =~= p@.subrange(0, j as int).push(p@[j as int]));
        j = j + 1;
    }
    proof {
        assert(p@.subrange(0, p@.len() as int) =~= p@);
        assert(base@.subrange(0, base@.len() as int) =~= base@);
        assert(r@ =~= spec_join_windows(base@, part@));
    }
    r
}

/// The settings file path for the values of `USERPROFILE` and `HOME`
/// (see `spec_win_config_path`).
pub fn get_config_path(user_profile: Option<&str>, home: Option<&str>) -> (r: String)
    ensures
        r@ == spec_win_config_path(
            match user_profile { Some(u) => Some(u@), None => None },
            match home { Some(h) => Some(h@), None => None },
        ),
{
    let dir = match user_profile {
        Some(u) => str_to_chars(u),
        None => match home {
            Some(h) => str_to_chars(h),
            None => str_to_chars("."),
        },
    };
    chars_to_string(&join_windows(&dir, ".xxkey_config"))
}

/// The daemon's settings and what it knows of the file they come from.
pub struct ConfigManager {
    pub path: String,
    /// Modification time of the file when it was last read or written.
    pub last_modified: Option<u128>,
    pub current: AppConfig,
}

impl ConfigManager {
    /// The manager of the file that `USERPROFILE` and `HOME` point to, with the
    /// default settings until the file is read.
    pub fn new(user_profile: Option<&str>, home: Option<&str>) -> (r: Self)
        ensures
            r.path@ == spec_win_config_path(
                match user_profile { Some(u) => Some(u@), None => None },
                match home { Some(h) => Some(h@), None => None },
            ),
            r.last_modified is None,
            r.current == spec_default_config(),
    {
        ConfigManager {
            path: get_config_path(user_profile, home),
            last_modified: None,
            current: AppConfig::default(),
        }
    }

    /// Whether the file is to be read again, given the modification time that
    /// its metadata gives now (`None` when there is none): unless that is a
    /// time and the one last seen, it is, and it becomes the time last seen.
    pub fn file_changed(&mut self, mtime: Option<u128>) -> (r: bool)
        ensures
            r == !(mtime is Some && mtime == old(self).last_modified),
            final(self).last_modified == (if r { mtime } else { old(self).last_modified }),
            final(self).path == old(self).path,
            final(self).current == old(self).current,
    {
        match (mtime, self.last_modified) {
            (Some(a), Some(b)) => {
                if a == b {
                    return false;
                }
            },
            _ => {},
        }
        self.last_modified = mtime;
        true
    }

    /// Takes in the text of the settings file: each line with a known key
    /// sets that setting.
    pub fn apply_file(&mut self, content: &str)
        ensures
            final(self).current == spec_read_config(old(self).current, content@),
            final(self).path == old(self).path,
            final(self).last_modified == old(self).last_modified,
    {
        self.current = read_config(&self.current, content);
    }

    /// The text to write to the settings file.
    pub fn save_text(&self) -> (r: String)
        ensures r@ == spec_config_text(self.current),
    {
        config_text(&self.current)
    }

    /// Records a write of the settings file: when its metadata could be read
    /// afterwards, the modification time it gave (if any) is the one last seen.
    pub fn mark_saved(&mut self, metadata_read: bool, mtime: Option<u128>)
        ensures
            final(self).last_modified == (if metadata_read { mtime } else { old(self).last_modified }),
            final(self).path == old(self).path,
            final(self).current == old(self).current,
    {
        if metadata_read {
            self.last_modified = mtime;
        }
    }
}

} // verus!
