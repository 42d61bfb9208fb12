//! Resolution of the greeter's settings: each value comes from the command
//! line when given there, and otherwise from the configuration file — which
//! is only consulted at all when some value is missing from the command line.

use vstd::prelude::*;

verus! {

/// The values the command line may supply. `config` is the path of the
/// configuration file to consult instead of the default one.
#[derive(Debug, Clone, PartialEq, Eq)]
pub struct Args {
    pub user: Option<String>,
    pub session_name: Option<String>,
    pub session_command: Option<String>,
    pub config: Option<String>,
}

/// The resolved settings the greeter runs with.
#[derive(Debug, Clone, PartialEq, Eq)]
pub struct Settings {
    pub default_session_name: String,
    pub default_session_command: String,
    pub user: String,
}

/// Why settings could not be resolved.
#[derive(Debug, Clone, Copy, PartialEq, Eq)]
pub enum SettingsError {
    /// A value was missing from the command line and no configuration file
    /// was available to fall back on.
    ConfigUnavailable,
}

/// Whether resolution must fall back on the configuration file: true exactly
/// when the command line leaves some value unset.
pub open spec fn spec_needs_config(args: Args) -> bool {
    args.user is None || args.session_name is None || args.session_command is None
}

/// The resolved settings: each value from the command line when given there,
/// else from the configuration file; an error exactly when the file is needed
/// and unavailable.
pub open spec fn spec_from_args(args: Args, config: Option<Settings>) -> Result<
    Settings,
    SettingsError,
> {
    if spec_needs_config(args) && config is None {
        Err(SettingsError::ConfigUnavailable)
    } else {
        Ok(
            Settings {
                default_session_name: match args.session_name {
                    Some(name) => name,
                    None => config.unwrap().default_session_name,
                },
                default_session_command: match args.session_command {
                    Some(command) => command,
                    None => config.unwrap().default_session_command,
                },
                user: match args.user {
                    Some(user) => user,
                    None => config.unwrap().user,
                },
            },
        )
    }
}

/// Whether [`Settings::from_args`] will consult `config` at all. The caller
/// uses this to skip reading the configuration file when the command line is
/// complete, exactly as a lazily initialized file read would.
pub fn needs_config(args: &Args) -> (needed: bool)
    ensures
        needed == spec_needs_config(*args),
{
    args.user.is_none() || args.session_name.is_none() || args.session_command.is_none()
}

impl Settings {
    /// Resolve the settings from the command line and the configuration
    /// file's contents, if one was available.
    pub fn from_args(args: Args, config: Option<Settings>) -> (resolved: Result<
        Settings,
        SettingsError,
    >)
        ensures
            resolved == spec_from_args(args, config),
    {
        let Args { user, session_name, session_command, config: _path } = args;
        if user.is_none() || session_name.is_none() || session_command.is_none() {
            match config {
                Some(from_file) => {
                    let Settings {
                        default_session_name: file_name,
                        default_session_command: file_command,
                        user: file_user,
                    } = from_file;
                    Ok(
                        Settings {
                            default_session_name: match session_name {
                                Some(name) => name,
                                None => file_name,
                            },
                            default_session_command: match session_command {
                                Some(command) => command,
                                None => file_command,
                            },
                            user: match user {
                                Some(user) => user,
                                None => file_user,
                            },
                        },
                    )
                },
                None => Err(SettingsError::ConfigUnavailable),
            }
        } else {
            Ok(
                Settings {
                    default_session_name: session_name.unwrap(),
                    default_session_command: session_command.unwrap(),
                    user: user.unwrap(),
                },
            )
        }
    }
}

} // verus!
