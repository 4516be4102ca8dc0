//! Choosing the worker executable: beside the host's own (resolved)
//! executable first, then under the development tree.

use vstd::prelude::*;

verus! {

/// File name of the worker executable, looked for beside the host's own
/// executable.
pub const SIDECAR_FILE_NAME: &'static str = "papermind-server";

/// Path of the worker executable in a development tree, relative to the
/// working directory.
pub const DEV_SIDECAR_PATH: &'static str = "dist/papermind-server";

/// Why no worker executable could be chosen.
pub enum LocateError {
    /// The host could not learn the path of its own executable.
    CurrentExe(String),
    /// The host's executable path has no parent directory.
    NoExecutableDir,
    /// Neither candidate exists; both paths are kept for the report.
    NotFound { bundled: String, dev: String },
}

/// What the host learned of its own executable's location.
pub enum ExeDir {
    /// The path of the worker beside the host's resolved executable, and
    /// whether a file is there.
    Found { sidecar: String, exists: bool },
    /// The host's executable could not be found.
    CurrentExeFailed(String),
    /// The resolved executable path has no parent.
    NoParent,
}

/// The worker executable to run, in the order of preference: beside the
/// host's executable, then the development path; an error that names both
/// when neither exists. The development path is only taken when the host's
/// own directory is known.
pub fn resolve_sidecar_path(exe_dir: ExeDir, dev: String, dev_exists: bool) -> (r: Result<String, LocateError>)
    ensures
        match exe_dir {
            ExeDir::CurrentExeFailed(m) => r == Err::<String, LocateError>(LocateError::CurrentExe(m)),
            ExeDir::NoParent => r == Err::<String, LocateError>(LocateError::NoExecutableDir),
            ExeDir::Found { sidecar, exists } => if exists {
                r == Ok::<String, LocateError>(sidecar)
            } else if dev_exists {
                r == Ok::<String, LocateError>(dev)
            } else {
                r == Err::<String, LocateError>(LocateError::NotFound { bundled: sidecar, dev })
            },
        },
{
    match exe_dir {
        ExeDir::CurrentExeFailed(m) => Err(LocateError::CurrentExe(m)),
        ExeDir::NoParent => Err(LocateError::NoExecutableDir),
        ExeDir::Found { sidecar, exists } => {
            if exists {
                Ok(sidecar)
            } else if dev_exists {
                Ok(dev)
            } else {
                Err(LocateError::NotFound { bundled: sidecar, dev })
            }
        },
    }
}

} // verus!
