//! The environment directory layout: every location the supervisor touches,
//! derived deterministically from one application-data root. Directory
//! creation is left to the caller; resolution itself is pure.

use vstd::prelude::*;
use vstd::string::*;
use crate::platform::{Platform, spec_binary_name, get_uv_archive_info, OsFamily};

verus! {

/// Path concatenation with a single separator.
pub open spec fn spec_join(base: Seq<char>, name: Seq<char>) -> Seq<char> {
    base + "/"@ + name
}

/// Join one path component onto a base path.
pub fn join_path(base: &str, name: &str) -> (r: String)
    ensures
        r@ == spec_join(base@, name@),
{
    let mut s = String::from_str(base);
    s.append("/");
    s.append(name);
    s
}

/// All the fixed locations below the application data root.
pub struct EnvironmentPaths {
    /// The application data root everything is derived from.
    pub data_root: String,
    /// Isolated installation root for the tool.
    pub uv_root: String,
    /// Directory holding the tool binary.
    pub uv_bin_dir: String,
    /// The tool binary itself (`.exe`-suffixed on the Windows family).
    pub uv_binary: String,
    /// Tool download cache.
    pub cache_dir: String,
    /// Managed interpreter installations.
    pub python_install_dir: String,
    /// Managed interpreter launchers.
    pub python_bin_dir: String,
    /// Installed tool-managed utilities.
    pub tool_dir: String,
    /// Launchers for tool-managed utilities.
    pub tool_bin_dir: String,
    /// The managed server project directory.
    pub engine_dir: String,
    /// The project's isolated environment.
    pub venv_dir: String,
    /// The interpreter inside the isolated environment.
    pub venv_python: String,
    /// The server entry point file.
    pub server_py: String,
    /// The server project manifest.
    pub pyproject: String,
    /// The append-only service log.
    pub log_file: String,
    /// The bundled-image gallery directory.
    pub seeds_dir: String,
}

impl EnvironmentPaths {
    /// Every field holds the location the layout assigns to it under `root`.
    pub open spec fn wf_for(self, root: Seq<char>, p: Platform) -> bool {
        &&& self.data_root@ == root
        &&& self.uv_root@ == spec_join(root, ".uv"@)
        &&& self.uv_bin_dir@ == spec_join(self.uv_root@, "bin"@)
        &&& self.uv_binary@ == spec_join(self.uv_bin_dir@, spec_binary_name(p))
        &&& self.cache_dir@ == spec_join(self.uv_root@, "cache"@)
        &&& self.python_install_dir@ == spec_join(self.uv_root@, "python_install"@)
        &&& self.python_bin_dir@ == spec_join(self.uv_root@, "python_bin"@)
        &&& self.tool_dir@ == spec_join(self.uv_root@, "tool"@)
        &&& self.tool_bin_dir@ == spec_join(self.uv_root@, "tool_bin"@)
        &&& self.engine_dir@ == spec_join(root, "world_engine"@)
        &&& self.venv_dir@ == spec_join(self.engine_dir@, ".venv"@)
        &&& self.venv_python@ == (if p.os is Windows {
            spec_join(spec_join(self.venv_dir@, "Scripts"@), "python.exe"@)
        } else {
            spec_join(spec_join(self.venv_dir@, "bin"@), "python"@)
        })
        &&& self.server_py@ == spec_join(self.engine_dir@, "server.py"@)
        &&& self.pyproject@ == spec_join(self.engine_dir@, "pyproject.toml"@)
        &&& self.log_file@ == spec_join(self.engine_dir@, "server.log"@)
        &&& self.seeds_dir@ == spec_join(root, "seeds"@)
    }

    /// Resolve the whole layout from the application data root.
    pub fn resolve(data_root: &str, p: Platform) -> (r: EnvironmentPaths)
        ensures
            r.wf_for(data_root@, p),
    {
        let uv_root = join_path(data_root, ".uv");
        let uv_bin_dir = join_path(uv_root.as_str(), "bin");
        let (_, binary_name) = get_uv_archive_info(p);
        let uv_binary = join_path(uv_bin_dir.as_str(), binary_name);
        let cache_dir = join_path(uv_root.as_str(), "cache");
        let python_install_dir = join_path(uv_root.as_str(), "python_install");
        let python_bin_dir = join_path(uv_root.as_str(), "python_bin");
        let tool_dir = join_path(uv_root.as_str(), "tool");
        let tool_bin_dir = join_path(uv_root.as_str(), "tool_bin");
        let engine_dir = join_path(data_root, "world_engine");
        let venv_dir = join_path(engine_dir.as_str(), ".venv");
        let venv_python = if matches!(p.os, OsFamily::Windows) {
            let scripts = join_path(venv_dir.as_str(), "Scripts");
            join_path(scripts.as_str(), "python.exe")
        } else {
            let bin = join_path(venv_dir.as_str(), "bin");
            join_path(bin.as_str(), "python")
        };
        let server_py = join_path(engine_dir.as_str(), "server.py");
        let pyproject = join_path(engine_dir.as_str(), "pyproject.toml");
        let log_file = join_path(engine_dir.as_str(), "server.log");
        let seeds_dir = join_path(data_root, "seeds");
        EnvironmentPaths {
            data_root: String::from_str(data_root),
            uv_root,
            uv_bin_dir,
            uv_binary,
            cache_dir,
            python_install_dir,
            python_bin_dir,
            tool_dir,
            tool_bin_dir,
            engine_dir,
            venv_dir,
            venv_python,
            server_py,
            pyproject,
            log_file,
            seeds_dir,
        }
    }
}

/// The config document's location below the per-user config root.
pub fn config_file_path(config_root: &str) -> (r: String)
    ensures
        r@ == spec_join(config_root@, "config.json"@),
{
    join_path(config_root, "config.json")
}

} // verus!
