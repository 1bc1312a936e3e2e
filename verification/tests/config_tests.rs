use hoshinova::config::{
    default_delay_start, default_ignore_older_than, load_config, ChannelConfig, Config,
    ConfigError, TimeSpan, WebserverConfig, YtarchiveConfig, ScraperConfig,
};
use hoshinova::control::config_edit_allowed;

#[test]
fn test_config_default() {
    let config = Config::default();
    assert!(config.notifier.is_none());
    assert!(config.webserver.is_none());
    assert!(config.channel.is_empty());
    assert!(config.config_path.is_empty());
}

#[test]
fn test_ytarchive_config_default() {
    let yt = YtarchiveConfig::default();
    assert!(yt.executable_path.is_empty());
    assert!(yt.working_directory.is_empty());
    assert!(yt.args.is_empty());
    assert!(yt.quality.is_empty());
    assert_eq!(yt.delay_start, TimeSpan::default());
}

#[test]
fn test_scraper_config_default() {
    let scraper = ScraperConfig::default();
    assert_eq!(scraper.rss.poll_interval, TimeSpan::default());
    assert_eq!(scraper.rss.ignore_older_than, TimeSpan::default());
}

#[test]
fn test_webserver_config_default() {
    let ws = WebserverConfig::default();
    assert!(ws.bind_address.is_none());
    assert!(ws.unix_path.is_none());
}

#[test]
fn test_channel_config_default() {
    let ch = ChannelConfig::default();
    assert!(ch.id.is_empty());
    assert!(ch.name.is_empty());
    assert!(ch.filters.is_empty());
    assert!(!ch.match_description);
    assert!(ch.outpath.is_empty());
    assert!(ch.picture_url.is_none());
}

#[test]
fn test_default_durations() {
    assert_eq!(default_delay_start(), TimeSpan::from_secs(1));
    assert_eq!(default_ignore_older_than(), TimeSpan::from_secs(60 * 60 * 24));
}

#[test]
fn test_load_config_attaches_path() {
    let mut parsed = Config::default();
    parsed.ytarchive.quality = "best".to_string();
    let loaded = load_config(Ok(parsed), "/etc/service.toml").unwrap();
    assert_eq!(loaded.config_path, "/etc/service.toml");
    assert_eq!(loaded.ytarchive.quality, "best");
}

#[test]
fn test_load_config_passes_error_through() {
    let r = load_config(Err(ConfigError::Unreadable), "/etc/service.toml");
    assert_eq!(r.err(), Some(ConfigError::Unreadable));
}

#[test]
fn test_reload_invalid_keeps_config() {
    let mut config = Config::default();
    config.ytarchive.quality = "best".to_string();
    config.config_path = "/etc/service.toml".to_string();

    let result = config.reload(Err(ConfigError::Invalid));
    assert_eq!(result, Err(ConfigError::Invalid));
    // The previous snapshot remains fully in effect.
    assert_eq!(config.ytarchive.quality, "best");
    assert_eq!(config.config_path, "/etc/service.toml");
    assert!(config.notifier.is_none());
    assert!(config.channel.is_empty());
}

#[test]
fn test_reload_valid_swaps_config_and_keeps_path() {
    let mut config = Config::default();
    config.ytarchive.quality = "best".to_string();
    config.config_path = "/etc/service.toml".to_string();

    let mut fresh = Config::default();
    fresh.ytarchive.quality = "audio_only".to_string();
    fresh.config_path = "somewhere/else.toml".to_string();

    assert_eq!(config.reload(Ok(fresh)), Ok(()));
    assert_eq!(config.ytarchive.quality, "audio_only");
    assert_eq!(config.config_path, "/etc/service.toml");
}

#[test]
fn test_config_edit_permission() {
    let mut config = Config::default();
    assert!(config_edit_allowed(&config));

    let mut ws = WebserverConfig::default();
    ws.allow_config_edit = false;
    config.webserver = Some(ws);
    assert!(!config_edit_allowed(&config));

    let mut ws = WebserverConfig::default();
    ws.allow_config_edit = true;
    config.webserver = Some(ws);
    assert!(config_edit_allowed(&config));
}
