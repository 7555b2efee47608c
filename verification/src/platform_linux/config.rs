//! Settings of the Linux daemon, kept in a file that the settings window may
//! rewrite at any time. The daemon looks at the file at most once a second
//! and reads it again only when its modification time changed.

use vstd::prelude::*;
pub use crate::app_config::AppConfig;
use crate::app_config::{config_text, read_config, spec_config_text, spec_default_config, spec_read_config};
use crate::text::{chars_to_string, str_to_chars};

verus! {

/// Joins a relative path component to a path the way `PathBuf::push` does on
/// Unix: a `/` goes between them unless `base` is empty or already ends in one.
pub open spec fn spec_join(base: Seq<char>, part: Seq<char>) -> Seq<char> {
    if base.len() == 0 || base.last() == '/' {
        base + part
    } else {
        base + seq!['/'] + part
    }
}

/// Where the settings file is: `$XDG_CONFIG_HOME/xxkey/config` when that
/// variable is set and not empty, else `$HOME/.config/xxkey/config`, with `.`
/// for a missing `HOME`.
pub open spec fn spec_config_path(config_home: Option<Seq<char>>, home: Option<Seq<char>>) -> Seq<char> {
    match config_home {
        Some(x) if x.len() > 0 => spec_join(spec_join(x, "xxkey"@), "config"@),
        _ => {
            let h = match home {
                Some(h) => h,
                None => "."@,
            };
            spec_join(spec_join(spec_join(h, ".config"@), "xxkey"@), "config"@)
        },
    }
}

fn join(base: &Vec<char>, part: &str) -> (r: Vec<char>)
    ensures r@ == spec_join(base@, part@),
{
    let mut r: Vec<char> = Vec::new();
    let mut i: usize = 0;
    while i < base.len()
        invariant
            i <= base.len(),
            r@ == base@.subrange(0, i as int),
        decreases base.len() - i,
    {
        r.push(base[i]);
        i = i + 1;
    }
    if base.len() > 0 && base[base.len() - 1] != '/' {
        r.push('/');
    }
    let p = str_to_chars(part);
    let ghost before = r@;
    let mut j: usize = 0;
    while j < p.len()
        invariant
            j <= p.len(),
            r@ == before + p@.subrange(0, j as int),
        decreases p.len() - j,
    {
        r.push(p[j]);
        assert(p@.subrange(0, j + 1) =~= p@.subrange(0, j as int).push(p@[j as int]));
        j = j + 1;
    }
    proof {
        assert(p@.subrange(0, p@.len() as int) =~= p@);
        assert(base@.subrange(0, base@.len() as int) =~= base@);
        if base@.len() == 0 || base@.last() == '/' {
            assert(r@ =~= spec_join(base@, part@));
        } else {
            assert(r@ =~= spec_join(base@, part@));
        }
    }
    r
}

/// The settings file path for the values of `XDG_CONFIG_HOME` and `HOME`
/// (see `spec_config_path`).
pub fn get_config_path(config_home: Option<&str>, home: Option<&str>) -> (r: String)
    ensures
        r@ == spec_config_path(
            match config_home { Some(x) => Some(x@), None => None },
            match home { Some(h) => Some(h@), None => None },
        ),
{
    match config_home {
        Some(x) => {
            let xs = str_to_chars(x);
            if xs.len() > 0 {
                let p = join(&join(&xs, "xxkey"), "config");
                return chars_to_string(&p);
            }
        },
        None => {},
    }
    let h = match home {
        Some(h) => str_to_chars(h),
        None => str_to_chars("."),
    };
    let p = join(&join(&join(&h, ".config"), "xxkey"), "config");
    chars_to_string(&p)
}

/// The daemon's settings and what it knows of the file they come from.
pub struct ConfigManager {
    pub path: String,
    /// Modification time of the file when it was last read or written.
    pub last_modified: Option<u128>,
    /// When the file was last looked at, in milliseconds; none yet at first.
    pub last_check: Option<u64>,
    pub current: AppConfig,
}

impl ConfigManager {
    /// The manager of the file at the path that `XDG_CONFIG_HOME` and `HOME`
    /// give (see `get_config_path`); its file is looked at on the first check.
    pub fn new(config_home: Option<&str>, home: Option<&str>) -> (r: Self)
        ensures
            r.path@ == spec_config_path(
                match config_home { Some(x) => Some(x@), None => None },
                match home { Some(h) => Some(h@), None => None },
            ),
            r.last_modified is None,
            r.last_check is None,
            r.current == spec_default_config(),
    {
        Self::with_path(get_config_path(config_home, home))
    }

    /// The manager of the file at `path`, with the default settings until the
    /// file is read; its file is looked at on the first check.
    pub fn with_path(path: String) -> (r: Self)
        ensures
            r.path@ == path@,
            r.last_modified is None,
            r.last_check is None,
            r.current == spec_default_config(),
    {
        ConfigManager { path, last_modified: None, last_check: None, current: AppConfig::default() }
    }

    /// Whether the file is to be looked at, at time `now_ms`: not within a
    /// second of the last look (a clock that went back counts as within).
    /// When it is, `now_ms` becomes the time of the last look.
    pub fn check_due(&mut self, now_ms: u64) -> (r: bool)
        ensures
            r == match old(self).last_check {
                Some(t) => !(now_ms < t || now_ms - t < 1000),
                None => true,
            },
            final(self).last_check == (if r { Some(now_ms) } else { old(self).last_check }),
            final(self).path@ == old(self).path@,
            final(self).last_modified == old(self).last_modified,
            final(self).current == old(self).current,
    {
        match self.last_check {
            Some(t) => {
                if now_ms < t || now_ms - t < 1000 {
                    return false;
                }
            },
            None => {},
        }
        self.last_check = Some(now_ms);
        true
    }

    /// Whether the file is to be read again, given the modification time that
    /// its metadata gives now (`None` when there is none): unless that is a
    /// time and the one last seen, it is, and it becomes the time last seen.
    pub fn file_changed(&mut self, mtime: Option<u128>) -> (r: bool)
        ensures
            r == !(mtime is Some && mtime == old(self).last_modified),
            final(self).last_modified == (if r { mtime } else { old(self).last_modified }),
            final(self).path@ == old(self).path@,
            final(self).last_check == old(self).last_check,
            final(self).current == old(self).current,
    {
        match (mtime, self.last_modified) {
            (Some(a), Some(b)) => {
                if a == b {
                    return false;
                }
            },
            _ => {},
        }
        self.last_modified = mtime;
        true
    }

    /// Takes in the text of the settings file: each line with a known key
    /// sets that setting.
    pub fn apply_file(&mut self, content: &str)
        ensures
            final(self).current == spec_read_config(old(self).current, content@),
            final(self).path@ == old(self).path@,
            final(self).last_modified == old(self).last_modified,
            final(self).last_check == old(self).last_check,
    {
        self.current = read_config(&self.current, content);
    }

    /// The text to write to the settings file.
    pub fn save_text(&self) -> (r: String)
        ensures r@ == spec_config_text(self.current),
    {
        config_text(&self.current)
    }

    /// Records a write of the settings file at time `now_ms`: when its metadata
    /// could be read afterwards, the modification time it gave (if any) is the
    /// one last seen, and the file counts as looked at.
    pub fn mark_saved(&mut self, metadata_read: bool, mtime: Option<u128>, now_ms: u64)
        ensures
            final(self).last_modified == (if metadata_read { mtime } else { old(self).last_modified }),
            final(self).last_check == Some(now_ms),
            final(self).path@ == old(self).path@,
            final(self).current == old(self).current,
    {
        if metadata_read {
            self.last_modified = mtime;
        }
        self.last_check = Some(now_ms);
    }
}

} // verus!
