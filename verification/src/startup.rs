//! Starting the local OpenClaw gateway: which of its files must be there,
//! and in which order their absence is reported.
use vstd::prelude::*;

verus! {

/// A file or directory the gateway cannot start without.
#[derive(Debug, Clone, Copy, PartialEq, Eq, Structural)]
pub enum MissingPrerequisite {
    /// The Node.js executable.
    NodeRuntime,
    /// The OpenClaw application directory.
    OpenClawApp,
    /// The gateway configuration file.
    OpenClawConfig,
    /// The `openclaw.mjs` entry point.
    OpenClawEntry,
}

/// Checks the prerequisites in the order Node.js, application directory,
/// configuration, entry point, and reports the first one missing.
pub fn check_openclaw_prerequisites(
    node_exe_exists: bool,
    openclaw_dir_exists: bool,
    config_exists: bool,
    openclaw_mjs_exists: bool,
) -> (r: Result<(), MissingPrerequisite>)
    ensures
        r == if !node_exe_exists {
            Err(MissingPrerequisite::NodeRuntime)
        } else if !openclaw_dir_exists {
            Err(MissingPrerequisite::OpenClawApp)
        } else if !config_exists {
            Err(MissingPrerequisite::OpenClawConfig)
        } else if !openclaw_mjs_exists {
            Err(MissingPrerequisite::OpenClawEntry)
        } else {
            Ok(())
        },
{
    if !node_exe_exists {
        return Err(MissingPrerequisite::NodeRuntime);
    }
    if !openclaw_dir_exists {
        return Err(MissingPrerequisite::OpenClawApp);
    }
    if !config_exists {
        return Err(MissingPrerequisite::OpenClawConfig);
    }
    if !openclaw_mjs_exists {
        return Err(MissingPrerequisite::OpenClawEntry);
    }
    Ok(())
}

/// The checks made just before launching the gateway, in the order
/// Node.js, entry point, configuration.
pub fn check_launch_files(node_exe_exists: bool, openclaw_mjs_exists: bool, config_exists: bool) -> (r:
    Result<(), MissingPrerequisite>)
    ensures
        r == if !node_exe_exists {
            Err(MissingPrerequisite::NodeRuntime)
        } else if !openclaw_mjs_exists {
            Err(MissingPrerequisite::OpenClawEntry)
        } else if !config_exists {
            Err(MissingPrerequisite::OpenClawConfig)
        } else {
            Ok(())
        },
{
    if !node_exe_exists {
        return Err(MissingPrerequisite::NodeRuntime);
    }
    if !openclaw_mjs_exists {
        return Err(MissingPrerequisite::OpenClawEntry);
    }
    if !config_exists {
        return Err(MissingPrerequisite::OpenClawConfig);
    }
    Ok(())
}

} // verus!
