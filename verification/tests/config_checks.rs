use engine_host::config::{engine_mode_from_legacy, AppConfig, EngineMode, UiConfig, STANDALONE_PORT};
use engine_host::paths::{config_file_path, EnvironmentPaths};
use engine_host::platform::{Arch, OsFamily, Platform};
use engine_host::setup::{sync_precheck, unpack_message, unpack_plan, SetupError};

#[test]
fn default_config_values() {
    let c = AppConfig::default();
    assert_eq!(c.gpu_server.host, "localhost");
    assert_eq!(c.gpu_server.port, 7987);
    assert_eq!(STANDALONE_PORT, 7987);
    assert!(!c.gpu_server.use_ssl);
    assert_eq!(c.api_keys.openai, "");
    assert_eq!(c.api_keys.fal, "");
    assert_eq!(c.api_keys.huggingface, "");
    assert!(c.features.prompt_sanitizer);
    assert!(c.features.seed_generation);
    assert_eq!(c.features.engine_mode, EngineMode::Unchosen);
    assert!(!c.features.seed_gallery);
    assert!(!c.ui.bottom_panel_hidden);
    assert!(!UiConfig::default().bottom_panel_hidden);
    assert_eq!(EngineMode::default(), EngineMode::Unchosen);
}

#[test]
fn legacy_flag_migration() {
    assert_eq!(engine_mode_from_legacy(true), EngineMode::Standalone);
    assert_eq!(engine_mode_from_legacy(false), EngineMode::Server);
}

#[test]
fn unpack_plan_and_messages() {
    let p = unpack_plan(false, true, true);
    assert!(!p.write_server_py && !p.write_pyproject);
    assert_eq!(unpack_message(&p), "Files already exist, skipped unpacking");

    let p = unpack_plan(true, true, true);
    assert!(p.write_server_py && p.write_pyproject);
    assert_eq!(unpack_message(&p), "Unpacked: server.py, pyproject.toml");

    let p = unpack_plan(false, false, true);
    assert!(p.write_server_py && !p.write_pyproject);
    assert_eq!(unpack_message(&p), "Unpacked: server.py");

    let p = unpack_plan(false, true, false);
    assert!(!p.write_server_py && p.write_pyproject);
    assert_eq!(unpack_message(&p), "Unpacked: pyproject.toml");
}

#[test]
fn sync_precheck_order_and_messages() {
    assert_eq!(sync_precheck(true, true), Ok(()));
    assert_eq!(sync_precheck(false, true), Err(SetupError::RepoMissing));
    assert_eq!(sync_precheck(false, false), Err(SetupError::RepoMissing));
    assert_eq!(sync_precheck(true, false), Err(SetupError::ToolMissing));
    assert_eq!(
        SetupError::RepoMissing.message(),
        "Engine repository not found. Please clone it first."
    );
    assert_eq!(SetupError::ToolMissing.message(), "uv is not installed. Please install it first.");
}

#[test]
fn layout_for_posix_family() {
    let p = Platform { os: OsFamily::Linux, arch: Arch::X86_64 };
    let paths = EnvironmentPaths::resolve("/data", p);
    assert_eq!(paths.data_root, "/data");
    assert_eq!(paths.uv_root, "/data/.uv");
    assert_eq!(paths.uv_bin_dir, "/data/.uv/bin");
    assert_eq!(paths.uv_binary, "/data/.uv/bin/uv");
    assert_eq!(paths.cache_dir, "/data/.uv/cache");
    assert_eq!(paths.python_install_dir, "/data/.uv/python_install");
    assert_eq!(paths.python_bin_dir, "/data/.uv/python_bin");
    assert_eq!(paths.tool_dir, "/data/.uv/tool");
    assert_eq!(paths.tool_bin_dir, "/data/.uv/tool_bin");
    assert_eq!(paths.engine_dir, "/data/world_engine");
    assert_eq!(paths.venv_dir, "/data/world_engine/.venv");
    assert_eq!(paths.venv_python, "/data/world_engine/.venv/bin/python");
    assert_eq!(paths.server_py, "/data/world_engine/server.py");
    assert_eq!(paths.pyproject, "/data/world_engine/pyproject.toml");
    assert_eq!(paths.log_file, "/data/world_engine/server.log");
    assert_eq!(paths.seeds_dir, "/data/seeds");
}

#[test]
fn layout_for_windows_family() {
    let p = Platform { os: OsFamily::Windows, arch: Arch::Aarch64 };
    let paths = EnvironmentPaths::resolve("/data", p);
    assert_eq!(paths.uv_binary, "/data/.uv/bin/uv.exe");
    assert_eq!(paths.venv_python, "/data/world_engine/.venv/Scripts/python.exe");
}

#[test]
fn config_document_location() {
    assert_eq!(config_file_path("/cfg"), "/cfg/config.json");
}
