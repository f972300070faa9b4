//! The settings that the pipeline reads: the repository, the access token
//! and the verbosity. Loading them from files and from the environment is
//! left to the caller, who is told here which files to read, and in which
//! order.

use crate::error::{ErrorKind, UpdateError};
use vstd::prelude::*;
use vstd::string::StringExecFns;

verus! {

/// The configuration file that is read where none is given.
pub const DEFAULT_CONFIG: &'static str = "zxp.toml";

/// The system-wide configuration file.
pub const SYSTEM_CONFIG: &'static str = "/etc/zxp/zxp.toml";

/// The user's configuration file, relative to the home directory.
pub const USER_CONFIG: &'static str = ".config/zxp/zxp.toml";

/// The prefix of the environment variables that override the files.
pub const ENV_PREFIX: &'static str = "zxp";

/// The message of the failure that a missing repository section gives.
pub const GITHUB_MISSING: &'static str = "Github config is missing";

/// Access to the build service.
#[derive(Debug, Default, Clone, PartialEq, Eq)]
pub struct Github {
    /// The access token, as the value of the authorization header.
    pub key: String,
    /// The repository, as `owner/name`.
    pub repo: String,
}

/// A `Github` as a mathematical value.
pub struct GithubView {
    pub key: Seq<char>,
    pub repo: Seq<char>,
}

impl View for Github {
    type V = GithubView;

    open spec fn view(&self) -> GithubView {
        GithubView { key: self.key@, repo: self.repo@ }
    }
}

/// The settings of one run.
#[derive(Debug, Clone, PartialEq, Eq)]
pub struct Settings {
    verbose: Option<u8>,
    github: Option<Github>,
}

/// A `Settings` as a mathematical value.
pub struct SettingsView {
    pub verbose: Option<u8>,
    pub github: Option<GithubView>,
}

impl View for Settings {
    type V = SettingsView;

    closed spec fn view(&self) -> SettingsView {
        SettingsView {
            verbose: self.verbose,
            github: match self.github {
                Some(g) => Some(g@),
                None => None,
            },
        }
    }
}

/// How much is logged.
#[derive(Clone, Copy, Debug, PartialEq, Eq, Structural)]
pub enum LogLevel {
    Warn,
    Info,
    Debug,
    Trace,
}

impl Settings {
    /// The settings with the given verbosity and repository section, each as
    /// it was loaded or absent.
    pub fn init(verbose: Option<u8>, github: Option<Github>) -> (s: Settings)
        ensures
            s@.verbose == verbose,
            s@.github == match github {
                Some(g) => Some(g@),
                None => None,
            },
    {
        Settings { verbose, github }
    }

    /// The repository; a configuration error where the repository section
    /// is absent.
    pub fn gh_repo(&self) -> (r: Result<String, UpdateError>)
        ensures
            match self@.github {
                Some(g) => r is Ok && r->Ok_0@ == g.repo,
                None => r is Err && r->Err_0.kind == ErrorKind::Config && r->Err_0.message@
                    == GITHUB_MISSING@,
            },
    {
        match &self.github {
            Some(g) => Ok(g.repo.clone()),
            None => Err(UpdateError::new(ErrorKind::Config, GITHUB_MISSING)),
        }
    }

    /// The access token; a configuration error where the repository section
    /// is absent.
    pub fn gh_key(&self) -> (r: Result<String, UpdateError>)
        ensures
            match self@.github {
                Some(g) => r is Ok && r->Ok_0@ == g.key,
                None => r is Err && r->Err_0.kind == ErrorKind::Config && r->Err_0.message@
                    == GITHUB_MISSING@,
            },
    {
        match &self.github {
            Some(g) => Ok(g.key.clone()),
            None => Err(UpdateError::new(ErrorKind::Config, GITHUB_MISSING)),
        }
    }

    /// The configured verbosity; 0 where none is configured.
    pub fn verbosity(&self) -> (v: u8)
        ensures
            v == match self@.verbose {
                Some(level) => level,
                None => 0,
            },
    {
        match self.verbose {
            Some(level) => level,
            None => 0,
        }
    }

    /// The verbosity of a run: what the command line asks for, and the
    /// configured verbosity where it asks for none.
    pub fn effective_verbosity(&self, requested: u8) -> (v: u8)
        ensures
            v == if requested == 0 {
                match self@.verbose {
                    Some(level) => level,
                    None => 0,
                }
            } else {
                requested
            },
    {
        if requested == 0 {
            self.verbosity()
        } else {
            requested
        }
    }
}

/// The log level of a verbosity: warnings at 0, then one level more for each
/// step, up to everything from 3 on.
pub fn log_level(verbosity: u8) -> (level: LogLevel)
    ensures
        level == if verbosity == 0 {
            LogLevel::Warn
        } else if verbosity == 1 {
            LogLevel::Info
        } else if verbosity == 2 {
            LogLevel::Debug
        } else {
            LogLevel::Trace
        },
{
    if verbosity == 0 {
        LogLevel::Warn
    } else if verbosity == 1 {
        LogLevel::Info
    } else if verbosity == 2 {
        LogLevel::Debug
    } else {
        LogLevel::Trace
    }
}

/// The user's configuration file under the home directory `home`.
pub open spec fn user_config(home: Seq<char>) -> Seq<char> {
    home + "/"@ + USER_CONFIG@
}

/// The configuration files of a run, in the order in which they are read: a
/// later file overrides an earlier one, and the environment overrides them
/// all. They are the system-wide file, the user's file, and the file named
/// on the command line or, where none is named, the default file.
pub fn config_sources(home: &str, cfgfile: Option<String>) -> (files: Vec<String>)
    ensures
        files@.len() == 3,
        files@[0]@ == SYSTEM_CONFIG@,
        files@[1]@ == user_config(home@),
        files@[2]@ == match cfgfile {
            Some(file) => file@,
            None => DEFAULT_CONFIG@,
        },
{
    let mut user = home.to_owned();
    user.append("/");
    user.append(USER_CONFIG);
    let file = match cfgfile {
        Some(file) => file,
        None => DEFAULT_CONFIG.to_owned(),
    };
    let mut files: Vec<String> = Vec::new();
    files.push(SYSTEM_CONFIG.to_owned());
    files.push(user);
    files.push(file);
    files
}

} // verus!
