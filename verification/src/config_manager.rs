//! The configuration in memory, and where its file lives.
//!
//! Reading and writing the file is the work of the program around the
//! library. The manager holds what was read, changes it, and names the path.

use vstd::prelude::*;
use crate::config::{has_no_id, without_id, Config};
use crate::launcher::Launcher;

verus! {

/// The text of the path that `std::path::Path::join` builds from `base` and
/// `part` on the platform the library is built for.
pub uninterp spec fn joined_path(base: Seq<char>, part: Seq<char>) -> Seq<char>;

/// `std::path::Path::join`: the path `base` with `part` adjoined. Both
/// arguments are texts, so the result is one too, and is handed back as it
/// is.
#[verifier::external_body]
fn join_path(base: &str, part: &str) -> (path: String)
    ensures
        path@ == joined_path(base@, part@),
{
    std::path::Path::new(base).join(part).to_string_lossy().into_owned()
}

/// `dirs::config_dir`: the user's configuration directory, which it takes
/// from the environment and the user database. `None` where it finds none
/// or the directory has no Unicode name. Nothing is claimed of the result.
#[verifier::external_body]
fn platform_config_dir() -> Option<String> {
    dirs::config_dir().and_then(|dir| dir.into_os_string().into_string().ok())
}

/// The directory of the configuration file below the user's configuration
/// directory `base`; below the working directory where there is none.
pub open spec fn config_dir_of(base: Option<Seq<char>>) -> Seq<char> {
    joined_path(
        match base {
            Some(dir) => dir,
            None => "."@,
        },
        "initium"@,
    )
}

/// The path of the configuration file for the user's configuration
/// directory `base`.
pub open spec fn config_path_of(base: Option<Seq<char>>) -> Seq<char> {
    joined_path(config_dir_of(base), "config.json"@)
}

/// The text of an optional string.
pub open spec fn optional_text(text: Option<String>) -> Option<Seq<char>> {
    match text {
        Some(s) => Some(s@),
        None => None,
    }
}

/// Whether `config` is the configuration of a first start.
pub open spec fn is_default_config(config: Config) -> bool {
    &&& config.version@ == "0.1.0"@
    &&& config.theme@ == "light"@
    &&& !config.autostart
    &&& config.launchers@.len() == 0
}

/// Configuration manager.
pub struct ConfigManager {
    config_path: String,
    config: Config,
}

impl ConfigManager {
    /// The path this manager was opened with.
    pub closed spec fn path(self) -> String {
        self.config_path
    }

    /// The configuration this manager holds.
    pub closed spec fn settings(self) -> Config {
        self.config
    }

    /// The directory of the configuration file, given the user's
    /// configuration directory.
    pub fn config_dir_under(base: Option<String>) -> (dir: String)
        ensures
            dir@ == config_dir_of(optional_text(base)),
    {
        match base {
            Some(found) => join_path(found.as_str(), "initium"),
            None => join_path(".", "initium"),
        }
    }

    /// The path of the configuration file, given the user's configuration
    /// directory.
    pub fn config_path_under(base: Option<String>) -> (path: String)
        ensures
            path@ == config_path_of(optional_text(base)),
    {
        let dir = Self::config_dir_under(base);
        join_path(dir.as_str(), "config.json")
    }

    /// Get platform-specific config directory: `initium` below the user's
    /// configuration directory, whatever that is on this machine.
    pub fn get_config_dir() -> (dir: String)
        ensures
            exists|base: Option<Seq<char>>| dir@ == config_dir_of(base),
    {
        let base = platform_config_dir();
        let dir = Self::config_dir_under(base);
        assert(dir@ == config_dir_of(optional_text(base)));
        dir
    }

    /// Get full config file path: `config.json` in the directory of
    /// `get_config_dir`.
    pub fn get_config_path() -> (path: String)
        ensures
            exists|base: Option<Seq<char>>| path@ == config_path_of(base),
    {
        let base = platform_config_dir();
        let path = Self::config_path_under(base);
        assert(path@ == config_path_of(optional_text(base)));
        path
    }

    /// Create default configuration.
    pub fn default_config() -> (config: Config)
        ensures
            is_default_config(config),
    {
        Config {
            version: String::from_str("0.1.0"),
            theme: String::from_str("light"),
            autostart: false,
            launchers: Vec::new(),
        }
    }

    /// A manager for the file at `config_path`, holding `stored` where the
    /// file was there and could be read, and the default configuration where
    /// it was not. The flag says whether the file has yet to be written:
    /// exactly where the default was taken.
    pub fn open(config_path: String, stored: Option<Config>) -> (opened: (ConfigManager, bool))
        ensures
            opened.0.path() == config_path,
            match stored {
                Some(config) => opened.0.settings() == config && !opened.1,
                None => is_default_config(opened.0.settings()) && opened.1,
            },
    {
        match stored {
            Some(config) => (ConfigManager { config_path, config }, false),
            None => (ConfigManager { config_path, config: Self::default_config() }, true),
        }
    }

    /// Add launcher. The file is then behind: the caller writes it.
    pub fn add_launcher(&mut self, launcher: Launcher)
        ensures
            final(self).path() == old(self).path(),
            final(self).settings().launchers@ == old(self).settings().launchers@.push(launcher),
            final(self).settings().version == old(self).settings().version,
            final(self).settings().theme == old(self).settings().theme,
            final(self).settings().autostart == old(self).settings().autostart,
    {
        self.config.add_launcher(launcher);
    }

    /// Remove launcher. The file is then behind: the caller writes it.
    pub fn remove_launcher(&mut self, id: &str)
        ensures
            final(self).path() == old(self).path(),
            final(self).settings().launchers@ == without_id(old(self).settings().launchers@, id@),
            has_no_id(final(self).settings().launchers@, id@),
            final(self).settings().version == old(self).settings().version,
            final(self).settings().theme == old(self).settings().theme,
            final(self).settings().autostart == old(self).settings().autostart,
    {
        self.config.remove_launcher(id);
    }

    /// Get config reference.
    pub fn config(&self) -> (config: &Config)
        ensures
            *config == self.settings(),
    {
        &self.config
    }

    /// Get mutable config reference.
    pub fn config_mut(&mut self) -> (config: &mut Config)
        ensures
            *config == old(self).settings(),
            final(self).settings() == *final(config),
            final(self).path() == old(self).path(),
    {
        &mut self.config
    }

    /// Get config path.
    pub fn config_path(&self) -> (path: &str)
        ensures
            path@ == self.path()@,
    {
        self.config_path.as_str()
    }
}

} // verus!
