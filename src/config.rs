//! Where the worker is launched from: a fixed interpreter command while
//! developing, the bundled executable in a packaged build.
use vstd::prelude::*;

verus! {

/// The interpreter that runs the worker while developing.
pub const DEV_EXE_PATH: &'static str = "python";

/// The working directory of the worker while developing.
pub const DEV_EXE_CWD: &'static str = "../..";

/// Unbuffered output, so that each line reaches the supervisor at once.
pub const DEV_ARG_UNBUFFERED: &'static str = "-u";

/// The worker's entry script while developing.
pub const DEV_ARG_SCRIPT: &'static str = "./src/Chat.py";

/// Where the bundled executable lies among the application's resources.
pub const PACKAGED_EXE_RESOURCE: &'static str = "resources/Chat";

/// What looking up a path in the host application gave.
#[derive(Debug)]
pub enum PathLookup {
    /// The path, as text.
    Found(String),
    /// The path was found but is not valid UTF-8.
    NotUtf8,
    /// The lookup failed, for the reason given.
    Failed(String),
}

/// How the worker is to be found.
#[derive(Debug)]
pub enum BuildMode {
    /// A development build: the worker runs from its source tree.
    Development,
    /// A packaged build, with the looked-up executable and application-data
    /// directory.
    Packaged { executable: PathLookup, data_dir: PathLookup },
}

/// Why no launch configuration could be made.
#[derive(Debug)]
pub enum ConfigError {
    ExecutableUnresolved(String),
    ExecutableNotUtf8,
    DataDirUnavailable(String),
    DataDirNotUtf8,
}

/// Executable, working directory and arguments of one launch.
#[derive(Debug)]
pub struct LaunchConfig {
    pub exe_path: String,
    pub working_dir: String,
    pub args: Vec<String>,
}

/// The launch configuration of a development build.
pub open spec fn is_dev_config(c: LaunchConfig) -> bool {
    &&& c.exe_path@ == DEV_EXE_PATH@
    &&& c.working_dir@ == DEV_EXE_CWD@
    &&& c.args@.len() == 2
    &&& c.args@[0]@ == DEV_ARG_UNBUFFERED@
    &&& c.args@[1]@ == DEV_ARG_SCRIPT@
}

/// The launch configuration that `mode` calls for, or why there is none.
/// In a packaged build the executable is checked before the data directory,
/// and the worker gets no arguments.
pub open spec fn config_spec(mode: BuildMode, r: Result<LaunchConfig, ConfigError>) -> bool {
    match mode {
        BuildMode::Development => r matches Ok(c) && is_dev_config(c),
        BuildMode::Packaged { executable, data_dir } => match executable {
            PathLookup::Failed(e) => r == Err::<LaunchConfig, ConfigError>(
                ConfigError::ExecutableUnresolved(e),
            ),
            PathLookup::NotUtf8 => r == Err::<LaunchConfig, ConfigError>(
                ConfigError::ExecutableNotUtf8,
            ),
            PathLookup::Found(exe) => match data_dir {
                PathLookup::Failed(e) => r == Err::<LaunchConfig, ConfigError>(
                    ConfigError::DataDirUnavailable(e),
                ),
                PathLookup::NotUtf8 => r == Err::<LaunchConfig, ConfigError>(
                    ConfigError::DataDirNotUtf8,
                ),
                PathLookup::Found(dir) => r matches Ok(c) && c.exe_path@ == exe@
                    && c.working_dir@ == dir@ && c.args@.len() == 0,
            },
        },
    }
}

/// Resolves the launch configuration; computed anew for every start.
pub fn get_exe_config(mode: BuildMode) -> (r: Result<LaunchConfig, ConfigError>)
    ensures
        config_spec(mode, r),
{
    match mode {
        BuildMode::Development => {
            let mut args: Vec<String> = Vec::new();
            args.push(DEV_ARG_UNBUFFERED.to_owned());
            args.push(DEV_ARG_SCRIPT.to_owned());
            Ok(
                LaunchConfig {
                    exe_path: DEV_EXE_PATH.to_owned(),
                    working_dir: DEV_EXE_CWD.to_owned(),
                    args,
                },
            )
        },
        BuildMode::Packaged { executable, data_dir } => {
            let exe = match executable {
                PathLookup::Found(p) => p,
                PathLookup::NotUtf8 => {
                    return Err(ConfigError::ExecutableNotUtf8);
                },
                PathLookup::Failed(e) => {
                    return Err(ConfigError::ExecutableUnresolved(e));
                },
            };
            let dir = match data_dir {
                PathLookup::Found(p) => p,
                PathLookup::NotUtf8 => {
                    return Err(ConfigError::DataDirNotUtf8);
                },
                PathLookup::Failed(e) => {
                    return Err(ConfigError::DataDirUnavailable(e));
                },
            };
            Ok(LaunchConfig { exe_path: exe, working_dir: dir, args: Vec::new() })
        },
    }
}

} // verus!
