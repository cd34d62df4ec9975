//! The launch configuration and the store that keeps it.

use vstd::prelude::*;
use vstd::string::StringExecFns;
use crate::error::AppError;
use crate::text::same_text;
use crate::text::{copy_optional, optional_text};

verus! {

/// The two process models that a host can have.
#[derive(Debug, Clone, Copy, PartialEq, Eq, Structural)]
pub enum Platform {
    Windows,
    Unix,
}

/// What a launch needs to know: the executable, where to run it, the
/// permission mode handed to it, where sessions are kept, and the helper
/// shell that a Windows host may need.
#[derive(Debug, Clone, PartialEq, Eq)]
pub struct Config {
    pub claude_cmd: String,
    pub work_dir: Option<String>,
    pub permission_mode: String,
    pub session_dir: Option<String>,
    pub git_bin_path: Option<String>,
}

/// Whether the tool answers, which version it reports, and where it runs.
#[derive(Debug, Clone, PartialEq, Eq)]
pub struct HealthStatus {
    pub claude_available: bool,
    pub claude_version: Option<String>,
    pub work_dir: Option<String>,
    pub config_valid: bool,
}

impl Config {
    /// The configuration for one launch: this one, run in `work_dir` where
    /// the caller names one.
    pub fn for_launch(&self, work_dir: Option<String>) -> (config: Config)
        ensures
            config == (Config {
                work_dir: if work_dir is Some {
                    work_dir
                } else {
                    self.work_dir
                },
                ..*self
            }),
    {
        Config {
            claude_cmd: self.claude_cmd.clone(),
            work_dir: match work_dir {
                Some(dir) => Some(dir),
                None => copy_optional(&self.work_dir),
            },
            permission_mode: self.permission_mode.clone(),
            session_dir: copy_optional(&self.session_dir),
            git_bin_path: copy_optional(&self.git_bin_path),
        }
    }

    /// A configuration with the given command and helper shell, every
    /// tool call permitted, and no directory chosen yet.
    pub fn new(command: String, helper: Option<String>) -> (config: Config)
        ensures
            config.claude_cmd == command,
            config.git_bin_path == helper,
            config.permission_mode@ == "bypassPermissions"@,
            config.work_dir is None,
            config.session_dir is None,
    {
        Config {
            claude_cmd: command,
            work_dir: None,
            permission_mode: String::from_str("bypassPermissions"),
            session_dir: None,
            git_bin_path: helper,
        }
    }
}

/// The helper shell that a host has where none is configured: the shell
/// of a usual installation on Windows, none elsewhere.
pub open spec fn usual_helper(platform: Platform) -> Option<Seq<char>> {
    match platform {
        Platform::Windows => Some("D:\\Program Files\\Git\\usr\\bin\\bash.exe"@),
        Platform::Unix => None,
    }
}

impl Config {
    /// The configuration a host starts with before any was saved: the
    /// given command, the host's usual helper shell, every tool call
    /// permitted, and no directory chosen yet.
    pub fn default_for(platform: Platform, command: String) -> (config: Config)
        ensures
            config.claude_cmd == command,
            optional_text(config.git_bin_path) == usual_helper(platform),
            config.permission_mode@ == "bypassPermissions"@,
            config.work_dir is None,
            config.session_dir is None,
    {
        let helper = match platform {
            Platform::Windows => Some(
                String::from_str("D:\\Program Files\\Git\\usr\\bin\\bash.exe"),
            ),
            Platform::Unix => None,
        };
        Config::new(command, helper)
    }
}

/// The configuration in use and the place it is saved to.
///
/// The store changes the configuration in memory; writing it out is the
/// caller's step after each change.
pub struct ConfigStore {
    config: Config,
    config_path: String,
}

impl ConfigStore {
    /// The configuration in use.
    pub closed spec fn config(&self) -> Config {
        self.config
    }

    /// The place the configuration is saved to.
    pub closed spec fn path(&self) -> String {
        self.config_path
    }

    /// A store for a configuration that was loaded from `config_path`.
    ///
    /// Where the configuration still names the bare command `bare` and the
    /// host found the tool at `resolved`, the store takes that place
    /// instead and says so, for the caller to save it.
    pub fn new(
        config: Config,
        config_path: String,
        bare: &str,
        resolved: Option<String>,
    ) -> (opened: (ConfigStore, bool))
        ensures
            opened.0.path() == config_path,
            opened.1 == (config.claude_cmd@ == bare@ && resolved is Some),
            opened.1 ==> opened.0.config() == (Config { claude_cmd: resolved->Some_0, ..config }),
            !opened.1 ==> opened.0.config() == config,
    {
        let unresolved = same_text(config.claude_cmd.as_str(), bare);
        match resolved {
            Some(found) => {
                if unresolved {
                    let mut config = config;
                    config.claude_cmd = found;
                    (ConfigStore { config, config_path }, true)
                } else {
                    (ConfigStore { config, config_path }, false)
                }
            },
            None => (ConfigStore { config, config_path }, false),
        }
    }

    /// The configuration in use.
    pub fn get(&self) -> (config: &Config)
        ensures
            *config == self.config(),
    {
        &self.config
    }

    /// The place the configuration is saved to.
    pub fn config_path(&self) -> (path: &String)
        ensures
            *path == self.path(),
    {
        &self.config_path
    }

    /// Replaces the configuration.
    pub fn update(&mut self, config: Config)
        ensures
            final(self).config() == config,
            final(self).path() == old(self).path(),
    {
        self.config = config;
    }

    /// Sets or clears the working directory.
    pub fn set_work_dir(&mut self, path: Option<String>)
        ensures
            final(self).config() == (Config { work_dir: path, ..old(self).config() }),
            final(self).path() == old(self).path(),
    {
        self.config.work_dir = path;
    }

    /// Sets the command that starts the tool.
    pub fn set_claude_cmd(&mut self, cmd: String)
        ensures
            final(self).config() == (Config { claude_cmd: cmd, ..old(self).config() }),
            final(self).path() == old(self).path(),
    {
        self.config.claude_cmd = cmd;
    }

    /// Sets the directory that sessions are kept in.
    pub fn set_session_dir(&mut self, path: String)
        ensures
            final(self).config() == (Config { session_dir: Some(path), ..old(self).config() }),
            final(self).path() == old(self).path(),
    {
        self.config.session_dir = Some(path);
    }

    /// The health report for a probe of the tool that gave
    /// `claude_version`: available exactly when the probe gave a version.
    pub fn health_status(&self, claude_version: Option<String>) -> (status: HealthStatus)
        ensures
            status.claude_available == claude_version is Some,
            status.claude_version == claude_version,
            status.work_dir == self.config().work_dir,
            status.config_valid,
    {
        HealthStatus {
            claude_available: claude_version.is_some(),
            claude_version,
            work_dir: copy_optional(&self.config.work_dir),
            config_valid: true,
        }
    }

    /// The directory that sessions are kept in: the configured one, else
    /// the one that the host offers; without either that is an error.
    /// Says too whether the directory is the host's, which the caller
    /// then makes sure exists.
    pub fn session_dir(&self, offered: Option<String>) -> (chosen: Result<(String, bool), AppError>)
        ensures
            match (self.config().session_dir, offered) {
                (Some(configured), _) => chosen == Ok::<(String, bool), AppError>(
                    (configured, false),
                ),
                (None, Some(dir)) => chosen == Ok::<(String, bool), AppError>((dir, true)),
                (None, None) => chosen matches Err(AppError::ConfigError(message)) && message@
                    == "无法获取数据目录"@,
            },
    {
        match &self.config.session_dir {
            Some(configured) => Ok((configured.clone(), false)),
            None => match offered {
                Some(dir) => Ok((dir, true)),
                None => Err(AppError::ConfigError("无法获取数据目录".to_owned())),
            },
        }
    }

    /// The working directory in use: the configured one, else `fallback`.
    pub fn current_work_dir(&self, fallback: String) -> (dir: String)
        ensures
            dir == match self.config().work_dir {
                Some(configured) => configured,
                None => fallback,
            },
    {
        match &self.config.work_dir {
            Some(configured) => configured.clone(),
            None => fallback,
        }
    }
}

} // verus!
