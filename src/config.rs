//! Where the shell keeps its files, derived from the directories the host
//! finds for it.

use vstd::prelude::*;

verus! {

/// The name of the shell's own directory under the data and runtime directories.
pub const DATA_DIR: &'static str = "stremio";

pub const INSTANCE_SOCKET_FILE: &'static str = "stremio.sock";
pub const SERVER_FILE: &'static str = "server.js";
pub const CEF_DIR: &'static str = "cef";
pub const CEF_CACHE_DIR: &'static str = "cache";
pub const CEF_LOG_FILE: &'static str = "log";
pub const CEF_LOCK_FILE: &'static str = "SingletonLock";
pub const TRAY_ICON_DIR: &'static str = "tray";
pub const MPV_CONFIG_DIR: &'static str = "mpv-portable";

/// `name` under the directory `base`: one separator between them.
pub open spec fn join_spec(base: Seq<char>, name: Seq<char>) -> Seq<char> {
    if base.len() == 0 {
        name
    } else if base.last() == '/' {
        base + name
    } else {
        base + seq!['/'] + name
    }
}

/// The path of the relative component `name` under `base`.
pub fn join_path(base: &str, name: &str) -> (r: String)
    ensures
        r@ == join_spec(base@, name@),
{
    let n = base.unicode_len();
    if n == 0 {
        return name.to_string();
    }
    let mut r = base.to_string();
    if base.get_char(n - 1) != '/' {
        proof { reveal_strlit("/"); }
        r.append("/");
    }
    r.append(name);
    r
}

pub struct InstanceConfig {
    pub socket_file: String,
}

impl InstanceConfig {
    pub fn new(runtime_dir: &str) -> (r: InstanceConfig)
        ensures
            r.socket_file@ == join_spec(runtime_dir@, INSTANCE_SOCKET_FILE@),
    {
        InstanceConfig { socket_file: join_path(runtime_dir, INSTANCE_SOCKET_FILE) }
    }
}

pub struct ServerConfig {
    pub file: String,
}

impl ServerConfig {
    pub fn new(current_dir: &str) -> (r: ServerConfig)
        ensures
            r.file@ == join_spec(current_dir@, SERVER_FILE@),
    {
        ServerConfig { file: join_path(current_dir, SERVER_FILE) }
    }
}

pub struct WebViewConfig {
    pub cache_dir: String,
    pub log_file: String,
    pub lock_file: String,
}

impl WebViewConfig {
    pub fn new(data_dir: &str) -> (r: WebViewConfig)
        ensures
            r.cache_dir@ == join_spec(join_spec(data_dir@, CEF_DIR@), CEF_CACHE_DIR@),
            r.log_file@ == join_spec(join_spec(data_dir@, CEF_DIR@), CEF_LOG_FILE@),
            r.lock_file@ == join_spec(r.cache_dir@, CEF_LOCK_FILE@),
    {
        let cef_dir = join_path(data_dir, CEF_DIR);
        let cache_dir = join_path(cef_dir.as_str(), CEF_CACHE_DIR);
        let log_file = join_path(cef_dir.as_str(), CEF_LOG_FILE);
        let lock_file = join_path(cache_dir.as_str(), CEF_LOCK_FILE);
        WebViewConfig { cache_dir, log_file, lock_file }
    }
}

pub struct TrayConfig {
    pub icon_path: String,
}

impl TrayConfig {
    pub fn new(runtime_path: &str) -> (r: TrayConfig)
        ensures
            r.icon_path@ == join_spec(runtime_path@, TRAY_ICON_DIR@),
    {
        TrayConfig { icon_path: join_path(runtime_path, TRAY_ICON_DIR) }
    }
}

/// The player's portable configuration directory.
pub struct MpvConfig {
    pub config_dir: String,
}

impl MpvConfig {
    pub fn new(data_dir: &str) -> (r: MpvConfig)
        ensures
            r.config_dir@ == join_spec(data_dir@, MPV_CONFIG_DIR@),
    {
        MpvConfig { config_dir: join_path(data_dir, MPV_CONFIG_DIR) }
    }

    pub fn config_dir_str(&self) -> (r: String)
        ensures
            r@ == self.config_dir@,
    {
        self.config_dir.clone()
    }
}

pub struct Config {
    pub instance: InstanceConfig,
    pub server: ServerConfig,
    pub webview: WebViewConfig,
    pub tray: TrayConfig,
    pub player: MpvConfig,
}

impl Config {
    /// The configuration under the shell's data directory, its runtime
    /// directory, and the directory of its executable.
    pub fn new(data_dir: &str, runtime_dir: &str, current_dir: &str) -> (r: Config)
        ensures
            r.instance.socket_file@ == join_spec(runtime_dir@, INSTANCE_SOCKET_FILE@),
            r.server.file@ == join_spec(current_dir@, SERVER_FILE@),
            r.webview.cache_dir@ == join_spec(join_spec(data_dir@, CEF_DIR@), CEF_CACHE_DIR@),
            r.webview.log_file@ == join_spec(join_spec(data_dir@, CEF_DIR@), CEF_LOG_FILE@),
            r.webview.lock_file@ == join_spec(r.webview.cache_dir@, CEF_LOCK_FILE@),
            r.tray.icon_path@ == join_spec(runtime_dir@, TRAY_ICON_DIR@),
            r.player.config_dir@ == join_spec(data_dir@, MPV_CONFIG_DIR@),
    {
        Config {
            instance: InstanceConfig::new(runtime_dir),
            server: ServerConfig::new(current_dir),
            webview: WebViewConfig::new(data_dir),
            tray: TrayConfig::new(runtime_dir),
            player: MpvConfig::new(data_dir),
        }
    }
}

} // verus!
