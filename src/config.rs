//! Command-line requests and the policy-file gate.
use vstd::prelude::*;
use crate::identity::{User, ROOT_ID};
use crate::policy::{ExecutionAction, FileBoundConfig};

verus! {

/// Write permission for the group or for others.
pub const GROUP_OTHER_WRITE: u32 = 0o22;

/// Write permission for the group.
pub const GROUP_WRITE: u32 = 0o20;

/// The request as given on the command line.
#[derive(Debug)]
pub struct CliConfig {
    /// How often the shell flag was given: once for the target's shell,
    /// twice for the target's shell in a clean environment.
    pub shell: u8,
    /// Target account by id.
    pub target_id: Option<u32>,
    /// Target account by name.
    pub target_name: Option<String>,
    /// The command to run, as its argument vector.
    pub command: Vec<String>,
}

/// Why a request could not be configured.
#[derive(Debug)]
pub enum ConfigError {
    /// Reading the policy file failed.
    Io(String),
    /// The policy file's content is malformed.
    ParseErr(String),
    /// The policy file is writable by others than its owner, or not owned by the
    /// administrative account.
    InvalidConfigPerm,
    /// The command-line request is inconsistent.
    InvalidCliArgs,
    /// No account has the requested id.
    InvalidUserId(u32),
    /// No account has the requested name.
    InvalidUserName(String),
}

/// The request: what to do, and as whom.
#[derive(Debug)]
pub enum RuntimeConfig {
    Normal { action: ExecutionAction, target_user: User },
}

/// A configured request and its policy document.
#[derive(Debug)]
pub struct Config {
    pub rt_cfg: RuntimeConfig,
    pub fb_cfg: FileBoundConfig,
}

/// The metadata of the opened policy file.
#[derive(Debug, Clone, Copy, PartialEq, Eq, Structural)]
pub struct FileMeta {
    /// Permission bits.
    pub mode: u32,
    /// Owner's user id.
    pub owner: u32,
}

/// The request names exactly one of a command and a shell, and at most one way to
/// designate the target.
pub open spec fn cli_is_consistent(config: &CliConfig) -> bool {
    &&& (config.command@.len() > 0) != (config.shell > 0)
    &&& !(config.target_id is Some && config.target_name is Some)
}

/// Checks that the request names exactly one of a command and a shell, and at most
/// one way to designate the target.
pub fn verify_cli_config(config: &CliConfig) -> (r: bool)
    ensures
        r == cli_is_consistent(config),
{
    let mut present_modes: u32 = 0;
    let mut present_selector: u32 = 0;
    if config.command.len() > 0 {
        present_modes += 1;
    }
    if config.shell > 0 {
        present_modes += 1;
    }
    if config.target_id.is_some() {
        present_selector += 1;
    }
    if config.target_name.is_some() {
        present_selector += 1;
    }
    present_modes == 1 && present_selector <= 1
}

/// The action that a request asks for.
pub open spec fn requested_action(config: &CliConfig) -> ExecutionAction {
    if config.command@.len() > 0 {
        ExecutionAction::Command(config.command)
    } else {
        ExecutionAction::Shell(config.shell > 1)
    }
}

/// The error for a request whose target designation matched no account.
pub open spec fn missing_target_error(config: &CliConfig) -> ConfigError {
    match config.target_id {
        Some(uid) => ConfigError::InvalidUserId(uid),
        None => match config.target_name {
            Some(name) => ConfigError::InvalidUserName(name),
            None => ConfigError::InvalidCliArgs,
        },
    }
}

/// Builds the runtime request from the command line and the account that its target
/// designation resolved to (`None` when no account matched).
pub fn gen_rt_config(config: CliConfig, target: Option<User>) -> (r: Result<RuntimeConfig, ConfigError>)
    ensures
        target is None ==> r == Err::<RuntimeConfig, ConfigError>(missing_target_error(&config)),
        target matches Some(t) ==> r == Ok::<RuntimeConfig, ConfigError>(
            (RuntimeConfig::Normal { action: requested_action(&config), target_user: t }),
        ),
{
    let user = match target {
        Some(t) => t,
        None => {
            return match config.target_id {
                Some(uid) => Err(ConfigError::InvalidUserId(uid)),
                None => match config.target_name {
                    Some(name) => Err(ConfigError::InvalidUserName(name)),
                    None => Err(ConfigError::InvalidCliArgs),
                },
            };
        },
    };
    let clean = config.shell > 1;
    let action = if config.command.len() > 0 {
        ExecutionAction::Command(config.command)
    } else {
        ExecutionAction::Shell(clean)
    };
    Ok(RuntimeConfig::Normal { action, target_user: user })
}

/// Whether permission bits leave the file writable only by its owner.
pub fn is_readonly(mode: u32) -> (r: bool)
    ensures
        r == (mode & GROUP_OTHER_WRITE == 0),
{
    mode & GROUP_OTHER_WRITE == 0
}

/// The policy file may be trusted: only its owner may write it, and its owner is the
/// administrative account.
pub open spec fn is_trusted_file(meta: FileMeta) -> bool {
    meta.mode & GROUP_OTHER_WRITE == 0 && meta.owner == ROOT_ID
}

/// Admits a policy document read from a file with metadata `meta` (taken from the
/// same open handle as the content): an untrusted file is refused whatever its content.
pub fn load_policy(meta: FileMeta, parsed: Result<FileBoundConfig, ConfigError>) -> (r: Result<FileBoundConfig, ConfigError>)
    ensures
        !is_trusted_file(meta) ==> r matches Err(ConfigError::InvalidConfigPerm),
        meta.mode & GROUP_WRITE != 0 ==> r matches Err(ConfigError::InvalidConfigPerm),
        is_trusted_file(meta) ==> r == parsed,
{
    if meta.mode & GROUP_WRITE != 0 {
        proof { lemma_group_writable_refused(meta); }
    }
    if !is_readonly(meta.mode) || meta.owner != ROOT_ID {
        return Err(ConfigError::InvalidConfigPerm);
    }
    parsed
}

/// Configures a request, failing closed: the command line is checked first, then
/// the target designation, then the policy document; the first failure is returned and
/// only a fully configured request comes back as `Ok`.
pub fn load_config(config: CliConfig, target: Option<User>, policy: Result<FileBoundConfig, ConfigError>) -> (r: Result<Config, ConfigError>)
    ensures
        !cli_is_consistent(&config) ==> r matches Err(ConfigError::InvalidCliArgs),
        cli_is_consistent(&config) ==> match target {
            None => r == Err::<Config, ConfigError>(missing_target_error(&config)),
            Some(t) => match policy {
                Err(e) => r == Err::<Config, ConfigError>(e),
                Ok(doc) => r == Ok::<Config, ConfigError>(
                    (Config {
                        rt_cfg: RuntimeConfig::Normal { action: requested_action(&config), target_user: t },
                        fb_cfg: doc,
                    }),
                ),
            },
        },
{
    if !verify_cli_config(&config) {
        return Err(ConfigError::InvalidCliArgs);
    }
    let rt_cfg = match gen_rt_config(config, target) {
        Ok(rt_cfg) => rt_cfg,
        Err(e) => {
            return Err(e);
        },
    };
    match policy {
        Ok(fb_cfg) => Ok(Config { rt_cfg, fb_cfg }),
        Err(e) => Err(e),
    }
}

/// A policy file that its group may write is refused, whatever it holds.
pub proof fn lemma_group_writable_refused(meta: FileMeta)
    requires
        meta.mode & GROUP_WRITE != 0,
    ensures
        !is_trusted_file(meta),
{
    let m = meta.mode;
    assert(m & 0o20u32 != 0 ==> m & 0o22u32 != 0) by (bit_vector);
}

} // verus!
