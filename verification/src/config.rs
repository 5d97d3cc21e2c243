//! Command-line configuration, app entries, and where the apps list is
//! looked for.
use vstd::prelude::*;
use vstd::string::StringExecFns;

verus! {

/// Command-line configuration of the companion app.
#[derive(Debug, Clone, PartialEq, Eq, Default)]
pub struct Config {
    /// Run with mock backends (no Wayland, D-Bus, or hardware required).
    pub mock: bool,
    /// Override the bottom-screen output name (e.g. "eDP-2").
    /// If not set, auto-detection is used.
    pub output: Option<String>,
    /// Path to Gamescope's DRM lease socket (enables Game Mode).
    pub lease_socket: Option<String>,
    /// Path to apps.toml configuration file.
    pub apps_config: Option<String>,
}

/// A single launchable app entry from apps.toml. (`command` is the entry's
/// `exec` line: the shell command that starts the app.)
#[derive(Debug, Clone, PartialEq, Eq)]
pub struct AppEntry {
    pub name: String,
    pub icon: String,
    pub command: String,
    pub url: Option<String>,
}

/// `Path::join` on Unix: an absolute `part` (starting with `/`) replaces
/// `base`; otherwise `part` is appended to `base`, with a `/` in between when
/// `base` is non-empty and does not already end in one.
pub open spec fn joined_path(base: Seq<char>, part: Seq<char>) -> Seq<char> {
    if part.len() > 0 && part[0] == '/' {
        part
    } else if base.len() > 0 && base.last() != '/' {
        base + seq!['/'] + part
    } else {
        base + part
    }
}

/// `Path::new(base).join(part)` for UTF-8 paths on Unix, as a string.
fn path_join(base: &str, part: &str) -> (r: String)
    ensures
        r@ == joined_path(base@, part@),
{
    let pn = part.unicode_len();
    if pn > 0 && part.get_char(0) == '/' {
        return String::from_str(part);
    }
    let bn = base.unicode_len();
    if bn > 0 && base.get_char(bn - 1) != '/' {
        proof {
            reveal_strlit("/");
        }
        let r = String::from_str(base).concat("/").concat(part);
        assert(r@ =~= base@ + seq!['/'] + part@);
        r
    } else {
        String::from_str(base).concat(part)
    }
}

/// Name of the app's own configuration directory.
pub const CONFIG_DIR_NAME: &'static str = "flip-companion";

/// Name of the apps list file.
pub const APPS_FILE_NAME: &'static str = "apps.toml";

/// The app's configuration directory for the values of `XDG_CONFIG_HOME` and
/// `HOME`: `$XDG_CONFIG_HOME/flip-companion`, else
/// `$HOME/.config/flip-companion`, else none.
pub open spec fn config_dir_of(xdg_config_home: Option<Seq<char>>, home: Option<Seq<char>>) -> Option<Seq<char>> {
    match xdg_config_home {
        Some(x) => Some(joined_path(x, CONFIG_DIR_NAME@)),
        None => match home {
            Some(h) => Some(joined_path(joined_path(h, ".config"@), CONFIG_DIR_NAME@)),
            None => None,
        },
    }
}

pub open spec fn opt_view(s: Option<&str>) -> Option<Seq<char>> {
    match s {
        Some(v) => Some(v@),
        None => None,
    }
}

pub fn dirs_fallback(xdg_config_home: Option<&str>, home: Option<&str>) -> (r: Option<String>)
    ensures
        match r {
            Some(d) => config_dir_of(opt_view(xdg_config_home), opt_view(home)) == Some(d@),
            None => config_dir_of(opt_view(xdg_config_home), opt_view(home)) is None,
        },
{
    match xdg_config_home {
        Some(x) => Some(path_join(x, CONFIG_DIR_NAME)),
        None => match home {
            Some(h) => {
                let dot_config = path_join(h, ".config");
                Some(path_join(dot_config.as_str(), CONFIG_DIR_NAME))
            },
            None => None,
        },
    }
}

/// The apps list files tried, in order: only the `--apps-config` path when
/// one is given; otherwise `apps.toml` in the working directory, then
/// `apps.toml` in the configuration directory if there is one.
pub fn app_config_candidates(apps_config: &Option<String>, config_dir: &Option<String>) -> (r: Vec<String>)
    ensures
        match apps_config {
            Some(p) => r@.len() == 1 && r@[0]@ == p@,
            None => match config_dir {
                Some(d) => r@.len() == 2 && r@[0]@ == APPS_FILE_NAME@ && r@[1]@ == joined_path(d@, APPS_FILE_NAME@),
                None => r@.len() == 1 && r@[0]@ == APPS_FILE_NAME@,
            },
        },
{
    let mut paths: Vec<String> = Vec::new();
    match apps_config {
        Some(p) => {
            paths.push(p.clone());
        },
        None => {
            paths.push(String::from_str(APPS_FILE_NAME));
            match config_dir {
                Some(d) => paths.push(path_join(d.as_str(), APPS_FILE_NAME)),
                None => {},
            }
        },
    }
    paths
}

} // verus!
