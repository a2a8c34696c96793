//! Decisions around preparing the managed server project: which bundled
//! files to write out, and whether a dependency sync may run at all. The
//! file probes and writes themselves stay with the caller.

use vstd::prelude::*;
use vstd::string::*;

verus! {

/// Which bundled files the caller should write to the project directory.
pub struct UnpackPlan {
    pub write_server_py: bool,
    pub write_pyproject: bool,
}

/// A bundled file is written when forced, or when it is absent.
pub fn unpack_plan(force: bool, server_py_exists: bool, pyproject_exists: bool) -> (r: UnpackPlan)
    ensures
        r.write_server_py == (force || !server_py_exists),
        r.write_pyproject == (force || !pyproject_exists),
{
    UnpackPlan {
        write_server_py: force || !server_py_exists,
        write_pyproject: force || !pyproject_exists,
    }
}

/// The summary the unpack operation reports for each outcome.
pub fn unpack_message(plan: &UnpackPlan) -> (r: String)
    ensures
        plan.write_server_py && plan.write_pyproject ==> r@ == "Unpacked: server.py, pyproject.toml"@,
        plan.write_server_py && !plan.write_pyproject ==> r@ == "Unpacked: server.py"@,
        !plan.write_server_py && plan.write_pyproject ==> r@ == "Unpacked: pyproject.toml"@,
        !plan.write_server_py && !plan.write_pyproject ==> r@
            == "Files already exist, skipped unpacking"@,
{
    if plan.write_server_py && plan.write_pyproject {
        String::from_str("Unpacked: server.py, pyproject.toml")
    } else if plan.write_server_py {
        String::from_str("Unpacked: server.py")
    } else if plan.write_pyproject {
        String::from_str("Unpacked: pyproject.toml")
    } else {
        String::from_str("Files already exist, skipped unpacking")
    }
}

/// Why a dependency sync may not run.
#[derive(Clone, Copy, Debug, PartialEq, Eq, Structural)]
pub enum SetupError {
    /// The managed project directory is absent.
    RepoMissing,
    /// The tool binary is absent.
    ToolMissing,
}

impl SetupError {
    /// The remediation message each precondition failure carries.
    pub fn message(&self) -> (r: String)
        ensures
            *self is RepoMissing ==> r@ == "Engine repository not found. Please clone it first."@,
            *self is ToolMissing ==> r@ == "uv is not installed. Please install it first."@,
    {
        match self {
            SetupError::RepoMissing => String::from_str(
                "Engine repository not found. Please clone it first.",
            ),
            SetupError::ToolMissing => String::from_str(
                "uv is not installed. Please install it first.",
            ),
        }
    }
}

/// A sync runs only when the project directory exists and the tool is
/// installed; the directory is probed first.
pub fn sync_precheck(engine_dir_exists: bool, tool_installed: bool) -> (r: Result<(), SetupError>)
    ensures
        r is Ok <==> engine_dir_exists && tool_installed,
        !engine_dir_exists ==> r == Result::<(), SetupError>::Err(SetupError::RepoMissing),
        engine_dir_exists && !tool_installed ==> r == Result::<(), SetupError>::Err(
            SetupError::ToolMissing,
        ),
{
    if !engine_dir_exists {
        Err(SetupError::RepoMissing)
    } else if !tool_installed {
        Err(SetupError::ToolMissing)
    } else {
        Ok(())
    }
}

} // verus!
