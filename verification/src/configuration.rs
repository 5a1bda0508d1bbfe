//! The player's settings and where their file lives.
//!
//! The settings file is TOML with a `[main]` and a `[playlist]` table; a
//! missing key takes its default.  Reading and parsing the file happen outside
//! the library; here are the settings themselves, their defaults, and the
//! path of the file.

use vstd::prelude::*;

verus! {

/// All settings.
#[derive(Debug, Clone)]
pub struct Config {
    pub main: TomlMain,
    pub playlist: TomlPlaylist,
}

/// The `[main]` table.
#[derive(Debug, Clone)]
pub struct TomlMain {
    /// Abort right at start-up.
    pub crash_on_execute: bool,
}

/// The `[playlist]` table.
#[derive(Debug, Clone)]
pub struct TomlPlaylist {
    pub never_use: bool,
    /// The colour of the highlighted queue entry, as six hex digits.
    pub highlighted_color: String,
}

impl Default for TomlMain {
    fn default() -> (r: Self)
        ensures
            r.crash_on_execute == false,
    {
        TomlMain { crash_on_execute: false }
    }
}

impl Default for TomlPlaylist {
    fn default() -> (r: Self)
        ensures
            r.never_use == false,
            r.highlighted_color@ == "f5c2e7"@,
    {
        TomlPlaylist { never_use: false, highlighted_color: "f5c2e7".to_owned() }
    }
}

impl Default for Config {
    fn default() -> (r: Self)
        ensures
            r.main.crash_on_execute == false,
            r.playlist.never_use == false,
            r.playlist.highlighted_color@ == "f5c2e7"@,
    {
        Config { main: TomlMain::default(), playlist: TomlPlaylist::default() }
    }
}

/// Which settings file to read.
#[derive(Debug, Clone)]
pub enum ConfigurationPath {
    /// The platform's usual place (see `default_cfg_path`).
    Default,
    /// A path relative to the home directory.
    Custom(String),
}

/// The platforms with a usual place for settings files.
#[derive(PartialEq, Eq, Structural, Debug, Clone, Copy)]
pub enum Platform {
    Linux,
    Windows,
    MacOs,
}

/// The usual place of the settings file, relative to the home directory.
pub open spec fn default_path_spec(platform: Platform) -> Seq<char> {
    match platform {
        Platform::Linux => ".config/echotune/echotune.toml"@,
        Platform::Windows => "AppData/Roaming/echotune/echotune.toml"@,
        Platform::MacOs => "Library/Preferences/echotune/echotune.toml"@,
    }
}

/// The usual place of the settings file, relative to the home directory.
pub fn default_cfg_path(platform: Platform) -> (r: &'static str)
    ensures
        r@ == default_path_spec(platform),
{
    match platform {
        Platform::Linux => ".config/echotune/echotune.toml",
        Platform::Windows => "AppData/Roaming/echotune/echotune.toml",
        Platform::MacOs => "Library/Preferences/echotune/echotune.toml",
    }
}

/// The settings file's path relative to the home directory.
pub open spec fn relative_path_spec(path: ConfigurationPath, platform: Platform) -> Seq<char> {
    match path {
        ConfigurationPath::Default => default_path_spec(platform),
        ConfigurationPath::Custom(s) => s@,
    }
}

/// The path of the settings file: the home directory, a `/`, and the chosen
/// path below it.
pub fn config_file_path(home: &str, path: &ConfigurationPath, platform: Platform) -> (r: String)
    ensures
        r@ == home@ + "/"@ + relative_path_spec(*path, platform),
{
    let mut r = String::new();
    r.append(home);
    r.append("/");
    match path {
        ConfigurationPath::Default => r.append(default_cfg_path(platform)),
        ConfigurationPath::Custom(s) => r.append(s.as_str()),
    }
    r
}

/// The default settings file lives in a different place on each platform: the
/// path for one platform is never the path for another, and every one of them
/// is `echotune/echotune.toml` below a platform folder of the home directory.
pub proof fn lemma_default_path_per_platform(a: Platform, b: Platform)
    ensures
        a != b ==> relative_path_spec(ConfigurationPath::Default, a) != relative_path_spec(
            ConfigurationPath::Default,
            b,
        ),
        relative_path_spec(ConfigurationPath::Default, a).len() > 22,
        relative_path_spec(ConfigurationPath::Default, a).subrange(
            relative_path_spec(ConfigurationPath::Default, a).len() - 22,
            relative_path_spec(ConfigurationPath::Default, a).len() as int,
        ) == "echotune/echotune.toml"@,
{
    reveal_strlit(".config/echotune/echotune.toml");
    reveal_strlit("AppData/Roaming/echotune/echotune.toml");
    reveal_strlit("Library/Preferences/echotune/echotune.toml");
    reveal_strlit("echotune/echotune.toml");
    let p = relative_path_spec(ConfigurationPath::Default, a);
    assert(p.subrange(p.len() - 22, p.len() as int) =~= "echotune/echotune.toml"@);
}

/// A custom path is used as given, below the home directory, on every platform.
pub proof fn lemma_custom_path_ignores_platform(s: String, a: Platform, b: Platform)
    ensures
        relative_path_spec(ConfigurationPath::Custom(s), a) == s@,
        relative_path_spec(ConfigurationPath::Custom(s), a) == relative_path_spec(
            ConfigurationPath::Custom(s),
            b,
        ),
{
}

} // verus!
