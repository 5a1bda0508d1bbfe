use echotune::configuration::{
    config_file_path, default_cfg_path, Config, ConfigurationPath, Platform, TomlMain, TomlPlaylist,
};
use echotune::playlist::{playlist_candidates, playlist_entry};

#[test]
fn default_settings() {
    let cfg = Config::default();
    assert!(!cfg.main.crash_on_execute);
    assert!(!cfg.playlist.never_use);
    assert_eq!(cfg.playlist.highlighted_color, "f5c2e7");
    assert!(!TomlMain::default().crash_on_execute);
    assert_eq!(TomlPlaylist::default().highlighted_color, "f5c2e7");
}

#[test]
fn settings_file_paths() {
    assert_eq!(default_cfg_path(Platform::Linux), ".config/echotune/echotune.toml");
    assert_eq!(default_cfg_path(Platform::Windows), "AppData/Roaming/echotune/echotune.toml");
    assert_eq!(default_cfg_path(Platform::MacOs), "Library/Preferences/echotune/echotune.toml");
    assert_eq!(
        config_file_path("/home/me", &ConfigurationPath::Default, Platform::Linux),
        "/home/me/.config/echotune/echotune.toml"
    );
    assert_eq!(
        config_file_path("/home/me", &ConfigurationPath::Custom("x/y.toml".to_string()), Platform::Linux),
        "/home/me/x/y.toml"
    );
}

#[test]
fn playlist_lines() {
    assert_eq!(playlist_entry("// a comment", "/home/me"), None);
    assert_eq!(playlist_entry("//", "/home/me"), None);
    assert_eq!(playlist_entry("/music/a.mp3", "/home/me"), Some("/music/a.mp3".to_string()));
    assert_eq!(playlist_entry("~/music/a.mp3", "/home/me"), Some("/home/me/music/a.mp3".to_string()));
    assert_eq!(playlist_entry("a~b~c", "H"), Some("aHb~c".to_string()));
    assert_eq!(playlist_entry("~", ""), Some("".to_string()));
    assert_eq!(playlist_entry("/", "H"), Some("/".to_string()));
}

#[test]
fn playlist_file() {
    let lines: Vec<String> = vec![
        "// my playlist".to_string(),
        "~/a.mp3".to_string(),
        "".to_string(),
        "/b.ogg".to_string(),
        "//~/c.flac".to_string(),
    ];
    assert_eq!(
        playlist_candidates(&lines, "/h"),
        vec!["/h/a.mp3".to_string(), "".to_string(), "/b.ogg".to_string()]
    );
    assert_eq!(playlist_candidates(&Vec::new(), "/h"), Vec::<String>::new());
}
