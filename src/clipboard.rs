use vstd::prelude::*;

use crate::bytes::str_eq;
use crate::config::ClipboardConfig;
use crate::error::PostError;
use crate::transport::Platform;

verus! {

/// Read and write access to a clipboard.
pub trait ClipboardManager {
    /// The current text on the clipboard; empty when it holds none.
    fn get_contents(&mut self) -> Result<String, PostError>;

    /// Puts `content` on the clipboard.
    fn set_contents(&mut self, content: &str) -> Result<(), PostError>;
}

/// Which Wayland selection a helper reads and writes.
#[derive(Debug, Clone, Copy, PartialEq, Eq, Structural)]
pub enum WaylandClipboardType {
    Primary,
    Clipboard,
}

/// A clipboard reached through the wl-clipboard helpers.
#[derive(Debug, Clone, Copy)]
pub struct WaylandClipboard {
    pub clipboard_type: WaylandClipboardType,
}

impl WaylandClipboard {
    /// A Wayland clipboard on the given selection; refused when the helpers
    /// are not installed.
    pub fn new(clipboard_type: WaylandClipboardType, wl_clipboard_available: bool) -> (r: Result<
        WaylandClipboard,
        PostError,
    >)
        ensures
            wl_clipboard_available ==> (r matches Ok(c) && c.clipboard_type == clipboard_type),
            !wl_clipboard_available ==> (r matches Err(e) && e is Clipboard),
    {
        if !wl_clipboard_available {
            return Err(
                PostError::Clipboard("wl-clipboard utilities (wl-copy/wl-paste) not found".to_string()),
            );
        }
        Ok(WaylandClipboard { clipboard_type })
    }

    /// The helper argument that names the selection.
    pub fn selection_arg(&self) -> (r: &'static str)
        ensures
            self.clipboard_type == WaylandClipboardType::Primary ==> r@ == "--primary"@,
            self.clipboard_type == WaylandClipboardType::Clipboard ==> r@ == "--clipboard"@,
    {
        match self.clipboard_type {
            WaylandClipboardType::Primary => "--primary",
            WaylandClipboardType::Clipboard => "--clipboard",
        }
    }
}

/// What the caller found out about the desktop session.
#[derive(Debug, Clone, Copy)]
pub struct ClipboardEnvironment {
    pub platform: Platform,
    pub wayland_session: bool,
    pub has_wl_clipboard: bool,
    pub has_xclip: bool,
    pub has_xsel: bool,
    pub wsl: bool,
}

/// The clipboard implementations there are.
#[derive(Debug, Clone, Copy, PartialEq, Eq, Structural)]
pub enum ClipboardBackend {
    System,
    Wayland(WaylandClipboardType),
    XClip,
    XSel,
    HybridLinux,
    Wsl,
}

/// The best command-line clipboard helper of a session.
pub open spec fn best_utility(env: ClipboardEnvironment) -> Seq<char> {
    if env.wayland_session && env.has_wl_clipboard {
        "wl-clipboard"@
    } else if env.has_xclip {
        "xclip"@
    } else if env.has_xsel {
        "xsel"@
    } else {
        "system"@
    }
}

/// The clipboard to use in a session for a configured backend name, when
/// reading and writing (`watching` false) or watching (`watching` true);
/// `None` when the configured backend cannot be had.
pub open spec fn backend_choice(
    backend: Seq<char>,
    wayland_fallback: bool,
    env: ClipboardEnvironment,
    watching: bool,
) -> Option<ClipboardBackend> {
    match env.platform {
        Platform::Linux => if backend == "wayland"@ {
            if !watching && env.has_wl_clipboard {
                Some(ClipboardBackend::Wayland(WaylandClipboardType::Clipboard))
            } else {
                None
            }
        } else if backend == "xclip"@ {
            if env.has_xclip {
                Some(ClipboardBackend::XClip)
            } else {
                None
            }
        } else if backend == "xsel"@ {
            if env.has_xsel {
                Some(ClipboardBackend::XSel)
            } else {
                None
            }
        } else if backend == "system"@ {
            Some(ClipboardBackend::System)
        } else if env.wayland_session && wayland_fallback {
            Some(ClipboardBackend::HybridLinux)
        } else if best_utility(env) == "xclip"@ {
            Some(ClipboardBackend::XClip)
        } else if best_utility(env) == "xsel"@ {
            Some(ClipboardBackend::XSel)
        } else {
            Some(ClipboardBackend::System)
        },
        Platform::Windows => if backend == "wsl"@ {
            if env.wsl {
                Some(ClipboardBackend::Wsl)
            } else {
                None
            }
        } else if backend == "windows"@ {
            Some(ClipboardBackend::System)
        } else if env.wsl {
            Some(ClipboardBackend::Wsl)
        } else {
            Some(ClipboardBackend::System)
        },
        _ => Some(ClipboardBackend::System),
    }
}

/// The best command-line clipboard helper of a session: "wl-clipboard",
/// "xclip", "xsel" or "system".
pub fn get_best_clipboard_utility(env: &ClipboardEnvironment) -> (r: String)
    ensures
        r@ == best_utility(*env),
{
    if env.wayland_session && env.has_wl_clipboard {
        return "wl-clipboard".to_string();
    }
    if env.has_xclip {
        return "xclip".to_string();
    }
    if env.has_xsel {
        return "xsel".to_string();
    }
    "system".to_string()
}

fn choose_backend(
    config: &ClipboardConfig,
    env: &ClipboardEnvironment,
    watching: bool,
) -> (r: Result<ClipboardBackend, PostError>)
    ensures
        match backend_choice(config.backend@, config.wayland_fallback, *env, watching) {
            Some(b) => r matches Ok(x) && x == b,
            None => r matches Err(e) && e is Clipboard,
        },
{
    let name = config.backend.as_str();
    proof {
        reveal_strlit("wayland");
        reveal_strlit("xclip");
        reveal_strlit("xsel");
        reveal_strlit("system");
        reveal_strlit("wsl");
        reveal_strlit("windows");
        reveal_strlit("wl-clipboard");
    }
    match env.platform {
        Platform::Linux => {
            if str_eq(name, "wayland") {
                if !watching && env.has_wl_clipboard {
                    Ok(ClipboardBackend::Wayland(WaylandClipboardType::Clipboard))
                } else {
                    Err(PostError::Clipboard("Wayland clipboard not available for this use".to_string()))
                }
            } else if str_eq(name, "xclip") {
                if env.has_xclip {
                    Ok(ClipboardBackend::XClip)
                } else {
                    Err(PostError::Clipboard("xclip requested but not available".to_string()))
                }
            } else if str_eq(name, "xsel") {
                if env.has_xsel {
                    Ok(ClipboardBackend::XSel)
                } else {
                    Err(PostError::Clipboard("xsel requested but not available".to_string()))
                }
            } else if str_eq(name, "system") {
                Ok(ClipboardBackend::System)
            } else if env.wayland_session && config.wayland_fallback {
                Ok(ClipboardBackend::HybridLinux)
            } else {
                let best = get_best_clipboard_utility(env);
                if str_eq(best.as_str(), "xclip") {
                    Ok(ClipboardBackend::XClip)
                } else if str_eq(best.as_str(), "xsel") {
                    Ok(ClipboardBackend::XSel)
                } else {
                    Ok(ClipboardBackend::System)
                }
            }
        },
        Platform::Windows => {
            if str_eq(name, "wsl") {
                if env.wsl {
                    Ok(ClipboardBackend::Wsl)
                } else {
                    Err(PostError::Clipboard("WSL clipboard requested outside WSL".to_string()))
                }
            } else if str_eq(name, "windows") {
                Ok(ClipboardBackend::System)
            } else if env.wsl {
                Ok(ClipboardBackend::Wsl)
            } else {
                Ok(ClipboardBackend::System)
            }
        },
        _ => Ok(ClipboardBackend::System),
    }
}

/// The clipboard to read and write in `env` under `config`.
pub fn create_clipboard_with_config(
    config: &ClipboardConfig,
    env: &ClipboardEnvironment,
) -> (r: Result<ClipboardBackend, PostError>)
    ensures
        match backend_choice(config.backend@, config.wayland_fallback, *env, false) {
            Some(b) => r matches Ok(x) && x == b,
            None => r matches Err(e) && e is Clipboard,
        },
{
    choose_backend(config, env, false)
}

/// The clipboard to watch in `env` under `config`.
pub fn create_clipboard_watcher_with_config(
    config: &ClipboardConfig,
    env: &ClipboardEnvironment,
) -> (r: Result<ClipboardBackend, PostError>)
    ensures
        match backend_choice(config.backend@, config.wayland_fallback, *env, true) {
            Some(b) => r matches Ok(x) && x == b,
            None => r matches Err(e) && e is Clipboard,
        },
{
    choose_backend(config, env, true)
}

/// The clipboard to read and write in `env` under the default configuration.
pub fn create_clipboard(env: &ClipboardEnvironment) -> (r: Result<ClipboardBackend, PostError>)
    ensures
        match backend_choice("auto"@, true, *env, false) {
            Some(b) => r matches Ok(x) && x == b,
            None => r matches Err(e) && e is Clipboard,
        },
{
    let config = ClipboardConfig::default();
    create_clipboard_with_config(&config, env)
}

/// The clipboard to watch in `env` under the default configuration.
pub fn create_clipboard_watcher(env: &ClipboardEnvironment) -> (r: Result<ClipboardBackend, PostError>)
    ensures
        match backend_choice("auto"@, true, *env, true) {
            Some(b) => r matches Ok(x) && x == b,
            None => r matches Err(e) && e is Clipboard,
        },
{
    let config = ClipboardConfig::default();
    create_clipboard_watcher_with_config(&config, env)
}

/// Follows successive readings of a clipboard and reports each new,
/// non-empty content once.
#[derive(Debug, Clone)]
pub struct ChangeDetector {
    last: String,
}

impl ChangeDetector {
    /// The last content seen or set.
    pub closed spec fn last(&self) -> Seq<char> {
        self.last@
    }

    /// A detector that has seen nothing.
    pub fn new() -> (r: ChangeDetector)
        ensures
            r.last() == Seq::<char>::empty(),
    {
        ChangeDetector { last: String::new() }
    }

    /// Takes one reading: content that differs from the last and is not empty
    /// is new, and is returned.
    pub fn observe(&mut self, current: String) -> (r: Option<String>)
        ensures
            current@ != old(self).last() && current@.len() > 0 ==> (r matches Some(c) && c@
                == current@ && final(self).last() == current@),
            !(current@ != old(self).last() && current@.len() > 0) ==> r is None && final(self).last()
                == old(self).last(),
    {
        if !str_eq(current.as_str(), self.last.as_str()) && !current.as_str().is_empty() {
            self.last = current.clone();
            Some(current)
        } else {
            None
        }
    }

    /// Records content that this node put on the clipboard itself, so that
    /// reading it back is not a change.
    pub fn record(&mut self, content: &str)
        ensures
            final(self).last() == content@,
    {
        self.last = content.to_string();
    }
}

/// Content as the sync takes it: content of more than `max_content_size`
/// UTF-8 bytes is cut to its first `max_content_size` characters.
pub fn limit_content(content: String, max_content_size: usize) -> (r: String)
    ensures
        encode_utf8_len(content@) <= max_content_size ==> r@ == content@,
        encode_utf8_len(content@) > max_content_size ==> r@ == content@.subrange(
            0,
            if max_content_size < content@.len() {
                max_content_size as int
            } else {
                content@.len() as int
            },
        ),
{
    if content.as_str().as_bytes().len() <= max_content_size {
        return content;
    }
    let n = content.as_str().unicode_len();
    let end = if max_content_size < n {
        max_content_size
    } else {
        n
    };
    content.as_str().substring_char(0, end).to_string()
}

/// The number of UTF-8 bytes of some text.
pub open spec fn encode_utf8_len(s: Seq<char>) -> int {
    vstd::utf8::encode_utf8(s).len() as int
}

/// Refuses content of more than `max_content_size` UTF-8 bytes.
pub fn check_content_size(content: &str, max_content_size: usize) -> (r: Result<(), PostError>)
    ensures
        r is Ok <==> encode_utf8_len(content@) <= max_content_size,
        r matches Err(e) ==> e is Clipboard,
{
    if content.as_bytes().len() > max_content_size {
        return Err(PostError::Clipboard("Content too large".to_string()));
    }
    Ok(())
}

} // verus!
