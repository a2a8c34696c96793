//! The persisted configuration document's data model, its default values,
//! and the one-time migration of the legacy engine-mode flag. Reading and
//! writing the document itself is the caller's concern.

use vstd::prelude::*;
use vstd::string::*;

verus! {

/// The port the managed service is started on when the user picks none.
pub const STANDALONE_PORT: u16 = 7987;

/// How the managed server should be run.
#[derive(Clone, Copy, Debug, PartialEq, Eq, Structural)]
pub enum EngineMode {
    /// The user has not chosen yet.
    Unchosen,
    /// This application manages the server itself.
    Standalone,
    /// The user runs their own server.
    Server,
}

/// Where the GPU server is reached.
#[derive(Clone, Debug)]
pub struct GpuServerConfig {
    pub host: String,
    pub port: u16,
    pub use_ssl: bool,
}

/// Third-party service credentials.
#[derive(Clone, Debug)]
pub struct ApiKeysConfig {
    pub openai: String,
    pub fal: String,
    pub huggingface: String,
}

/// Feature switches.
#[derive(Clone, Copy, Debug)]
pub struct FeaturesConfig {
    pub prompt_sanitizer: bool,
    pub seed_generation: bool,
    pub engine_mode: EngineMode,
    pub seed_gallery: bool,
}

/// Window-layout preferences.
#[derive(Clone, Copy, Debug)]
pub struct UiConfig {
    pub bottom_panel_hidden: bool,
}

/// The whole configuration document.
#[derive(Clone, Debug)]
pub struct AppConfig {
    pub gpu_server: GpuServerConfig,
    pub api_keys: ApiKeysConfig,
    pub features: FeaturesConfig,
    pub ui: UiConfig,
}

impl Default for EngineMode {
    fn default() -> (r: Self)
        ensures
            r == EngineMode::Unchosen,
    {
        EngineMode::Unchosen
    }
}

impl Default for UiConfig {
    fn default() -> (r: Self)
        ensures
            !r.bottom_panel_hidden,
    {
        UiConfig { bottom_panel_hidden: false }
    }
}

/// The default values a fresh configuration document is created with.
pub open spec fn spec_is_default_config(c: AppConfig) -> bool {
    &&& c.gpu_server.host@ == "localhost"@
    &&& c.gpu_server.port == STANDALONE_PORT
    &&& !c.gpu_server.use_ssl
    &&& c.api_keys.openai@ == Seq::<char>::empty()
    &&& c.api_keys.fal@ == Seq::<char>::empty()
    &&& c.api_keys.huggingface@ == Seq::<char>::empty()
    &&& c.features.prompt_sanitizer
    &&& c.features.seed_generation
    &&& c.features.engine_mode == EngineMode::Unchosen
    &&& !c.features.seed_gallery
    &&& !c.ui.bottom_panel_hidden
}

impl Default for AppConfig {
    fn default() -> (r: Self)
        ensures
            spec_is_default_config(r),
    {
        AppConfig {
            gpu_server: GpuServerConfig {
                host: String::from_str("localhost"),
                port: STANDALONE_PORT,
                use_ssl: false,
            },
            api_keys: ApiKeysConfig {
                openai: String::new(),
                fal: String::new(),
                huggingface: String::new(),
            },
            features: FeaturesConfig {
                prompt_sanitizer: true,
                seed_generation: true,
                engine_mode: EngineMode::Unchosen,
                seed_gallery: false,
            },
            ui: UiConfig { bottom_panel_hidden: false },
        }
    }
}

/// Migration of the legacy boolean switch: `true` meant the managed mode,
/// `false` meant a user-run server.
pub fn engine_mode_from_legacy(use_standalone: bool) -> (r: EngineMode)
    ensures
        r == (if use_standalone {
            EngineMode::Standalone
        } else {
            EngineMode::Server
        }),
{
    if use_standalone {
        EngineMode::Standalone
    } else {
        EngineMode::Server
    }
}

} // verus!
