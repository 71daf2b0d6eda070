use vstd::prelude::*;

use vstd::string::StringExecFns;
use crate::error::PostError;

verus! {

/// The whole configuration.
#[derive(Debug, Clone)]
pub struct PostConfig {
    pub node: NodeConfig,
    pub network: NetworkConfig,
    pub security: SecurityConfig,
    pub ui: UiConfig,
    pub filters: FilterConfig,
    pub clipboard: ClipboardConfig,
}

/// This node's name and, optionally, a fixed id.
#[derive(Debug, Clone)]
pub struct NodeConfig {
    pub name: String,
    pub id: Option<String>,
}

/// Where to listen and how often to talk.
#[derive(Debug, Clone)]
pub struct NetworkConfig {
    pub tailscale_socket: Option<String>,
    pub port: u16,
    pub discovery_interval: u64,
    pub heartbeat_interval: u64,
}

/// Encryption settings.
#[derive(Debug, Clone)]
pub struct SecurityConfig {
    pub enable_encryption: bool,
    pub key_derivation_iterations: u32,
    pub max_content_size: usize,
}

/// Terminal interface settings.
#[derive(Debug, Clone)]
pub struct UiConfig {
    pub enable_tui: bool,
    pub vim_keys: bool,
    pub colors: ColorConfig,
}

/// Colour names of the terminal interface.
#[derive(Debug, Clone)]
pub struct ColorConfig {
    pub connected: String,
    pub syncing: String,
    pub error: String,
}

/// Content filters.
#[derive(Debug, Clone)]
pub struct FilterConfig {
    pub lua_hooks: Vec<String>,
    pub js_hooks: Vec<String>,
    pub max_length: Option<usize>,
    pub exclude_patterns: Vec<String>,
}

/// Clipboard backend settings.
#[derive(Debug, Clone)]
pub struct ClipboardConfig {
    /// The backend to force: auto, system, wayland, xclip, xsel, wsl or windows.
    pub backend: String,
    /// Whether a Wayland session may use the wl-clipboard helpers.
    pub wayland_fallback: bool,
    /// How often to poll the clipboard, in milliseconds.
    pub poll_interval_ms: u64,
    /// The largest content to sync, in bytes.
    pub max_content_size: usize,
    /// Whether to enable Sway-specific behaviour.
    pub sway_optimizations: bool,
    /// The selections to prefer, in order.
    pub selection_priority: Vec<String>,
}

/// The default port of the daemon.
pub const DEFAULT_PORT: u16 = 19827;

/// The default clipboard poll interval, in milliseconds.
pub const DEFAULT_POLL_INTERVAL_MS: u64 = 500;

/// The default largest content, in bytes.
pub const DEFAULT_MAX_CONTENT_SIZE: usize = 1048576;

/// Whether `c` is the default clipboard configuration.
pub open spec fn is_default_clipboard(c: ClipboardConfig) -> bool {
    &&& c.backend@ == "auto"@
    &&& c.wayland_fallback
    &&& c.poll_interval_ms == DEFAULT_POLL_INTERVAL_MS
    &&& c.max_content_size == DEFAULT_MAX_CONTENT_SIZE
    &&& c.sway_optimizations
    &&& c.selection_priority@.len() == 2
    &&& c.selection_priority@[0]@ == "clipboard"@
    &&& c.selection_priority@[1]@ == "primary"@
}

impl Default for ClipboardConfig {
    fn default() -> (r: ClipboardConfig)
        ensures
            is_default_clipboard(r),
    {
        let mut selection_priority: Vec<String> = Vec::new();
        selection_priority.push("clipboard".to_string());
        selection_priority.push("primary".to_string());
        ClipboardConfig {
            backend: "auto".to_string(),
            wayland_fallback: true,
            poll_interval_ms: DEFAULT_POLL_INTERVAL_MS,
            max_content_size: DEFAULT_MAX_CONTENT_SIZE,
            sway_optimizations: true,
            selection_priority,
        }
    }
}

/// Relies on hostname's `get`: the machine's host name, read lossily as
/// UTF-8; `None` when it cannot be read.
#[verifier::external_body]
fn host_name() -> (r: Option<String>) {
    hostname::get().ok().map(|h| h.to_string_lossy().into_owned())
}

impl Default for PostConfig {
    fn default() -> (r: PostConfig)
        ensures
            r.node.id is None,
            r.network.tailscale_socket is None,
            r.network.port == DEFAULT_PORT,
            r.network.discovery_interval == 30,
            r.network.heartbeat_interval == 10,
            r.security.enable_encryption,
            r.security.key_derivation_iterations == 100000,
            r.security.max_content_size == DEFAULT_MAX_CONTENT_SIZE,
            r.ui.enable_tui,
            r.ui.vim_keys,
            r.ui.colors.connected@ == "green"@,
            r.ui.colors.syncing@ == "yellow"@,
            r.ui.colors.error@ == "red"@,
            r.filters.lua_hooks@.len() == 0,
            r.filters.js_hooks@.len() == 0,
            r.filters.max_length == Some(10000usize),
            r.filters.exclude_patterns@.len() == 0,
            is_default_clipboard(r.clipboard),
    {
        let name = match host_name() {
            Some(n) => n,
            None => "unknown".to_string(),
        };
        PostConfig {
            node: NodeConfig { name, id: None },
            network: NetworkConfig {
                tailscale_socket: None,
                port: DEFAULT_PORT,
                discovery_interval: 30,
                heartbeat_interval: 10,
            },
            security: SecurityConfig {
                enable_encryption: true,
                key_derivation_iterations: 100000,
                max_content_size: DEFAULT_MAX_CONTENT_SIZE,
            },
            ui: UiConfig {
                enable_tui: true,
                vim_keys: true,
                colors: ColorConfig {
                    connected: "green".to_string(),
                    syncing: "yellow".to_string(),
                    error: "red".to_string(),
                },
            },
            filters: FilterConfig {
                lua_hooks: Vec::new(),
                js_hooks: Vec::new(),
                max_length: Some(10000),
                exclude_patterns: Vec::new(),
            },
            clipboard: ClipboardConfig::default(),
        }
    }
}

/// `dir` joined with `name`: one separator between them.
pub open spec fn path_join(dir: Seq<char>, name: Seq<char>) -> Seq<char> {
    if dir.len() > 0 && dir.last() == '/' {
        dir + name
    } else {
        dir + seq!['/'] + name
    }
}

impl PostConfig {
    /// The configuration file inside the platform's configuration directory
    /// `config_dir`: `<config_dir>/post/config.toml`. With no such directory
    /// there is no path.
    pub fn config_path(config_dir: Option<String>) -> (r: Result<String, PostError>)
        ensures
            config_dir is None ==> (r matches Err(e) && e is Config),
            config_dir matches Some(d) ==> (r matches Ok(p) && p@ == path_join(
                path_join(d@, "post"@),
                "config.toml"@,
            )),
    {
        let mut path = match config_dir {
            Some(d) => d,
            None => return Err(PostError::Config("Unable to determine config directory".to_string())),
        };
        join_into(&mut path, "post");
        join_into(&mut path, "config.toml");
        Ok(path)
    }
}

fn join_into(path: &mut String, name: &str)
    ensures
        final(path)@ == path_join(old(path)@, name@),
{
    let n = path.as_str().unicode_len();
    if n > 0 && path.as_str().get_char(n - 1) == '/' {
        path.append(name);
    } else {
        path.append("/");
        path.append(name);
        proof {
            reveal_strlit("/");
        }
    }
}

} // verus!
