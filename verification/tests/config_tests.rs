use shishabot::config::{
    authority_role_ids, config, update_guild_config, Config, ConfigEmbeds, ConfigGameMode,
    EnableDisable, GameMode, GuildConfig, ScoreSize, ServerConfig, ShowHideOption, UserConfig,
};

#[test]
fn mode_options_stand_for_game_modes() {
    assert_eq!(Option::<GameMode>::from(ConfigGameMode::NoMode), None);
    assert_eq!(Option::<GameMode>::from(ConfigGameMode::Osu), Some(GameMode::Osu));
    assert_eq!(Option::<GameMode>::from(ConfigGameMode::Catch), Some(GameMode::Catch));
    assert_eq!(ScoreSize::from(ConfigEmbeds::InitialMax), ScoreSize::InitialMaximized);
    assert_eq!(ScoreSize::from(ConfigEmbeds::AlwaysMin), ScoreSize::AlwaysMinimized);
}

#[test]
fn config_sets_given_options_only() {
    let mut c = UserConfig { mode: Some(GameMode::Taiko), score_size: None, show_retries: Some(true) };
    config(&mut c, Config { mode: None, score_embeds: Some(ConfigEmbeds::AlwaysMax), retries: None });
    assert_eq!(c.mode, Some(GameMode::Taiko));
    assert_eq!(c.score_size, Some(ScoreSize::AlwaysMaximized));
    assert_eq!(c.show_retries, Some(true));
    config(&mut c, Config { mode: Some(ConfigGameMode::NoMode), score_embeds: None, retries: Some(ShowHideOption::Hide) });
    assert_eq!(c.mode, None);
    assert_eq!(c.show_retries, Some(false));
}

#[test]
fn config_twice_is_config_once() {
    let args = Config { mode: Some(ConfigGameMode::Mania), score_embeds: Some(ConfigEmbeds::AlwaysMin), retries: Some(ShowHideOption::Show) };
    let mut once = UserConfig::default();
    config(&mut once, args);
    let mut twice = UserConfig::default();
    config(&mut twice, args);
    config(&mut twice, args);
    assert_eq!(once.mode, twice.mode);
    assert_eq!(once.score_size, twice.score_size);
    assert_eq!(once.show_retries, twice.show_retries);
    assert_eq!(twice.mode, Some(GameMode::Mania));
}

#[test]
fn server_config_options() {
    let none = ServerConfig { song_commands: None, retries: None, track_limit: None };
    assert!(!none.any());
    let args = ServerConfig { song_commands: Some(EnableDisable::Disable), retries: Some(ShowHideOption::Show), track_limit: Some(300) };
    assert!(args.any());
    let mut g = GuildConfig { authorities: vec![0, 5, 0, 7], show_retries: None, track_limit: Some(50), with_lyrics: Some(true) };
    update_guild_config(&mut g, args);
    assert_eq!(g.show_retries, Some(true));
    assert_eq!(g.track_limit, Some(44));
    assert_eq!(g.with_lyrics, Some(false));
    assert_eq!(g.authorities, vec![0, 5, 0, 7]);
    update_guild_config(&mut g, args);
    assert_eq!(g.track_limit, Some(44));
    let mut h = GuildConfig::default();
    update_guild_config(&mut h, ServerConfig { song_commands: None, retries: None, track_limit: Some(50) });
    assert_eq!(h.track_limit, Some(50));
    assert_eq!(h.show_retries, None);
    assert_eq!(authority_role_ids(&vec![0, 5, 0, 7]), vec![5, 7]);
    assert!(authority_role_ids(&Vec::new()).is_empty());
}
