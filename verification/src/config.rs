//! The user and server configuration commands: their options and how they
//! change the stored configuration.

use vstd::prelude::*;

verus! {

/// Whether something is shown.
#[derive(Clone, Copy, Debug, PartialEq, Eq, Structural)]
pub enum ShowHideOption {
    Show,
    Hide,
}

/// Whether something is enabled.
#[derive(Clone, Copy, Debug, PartialEq, Eq, Structural)]
pub enum EnableDisable {
    Enable,
    Disable,
}

/// An osu! game mode.
#[derive(Clone, Copy, Debug, PartialEq, Eq, Structural)]
pub enum GameMode {
    Osu,
    Taiko,
    Catch,
    Mania,
}

/// The mode option of the config command; `NoMode` clears the configured mode.
#[derive(Clone, Copy, Debug, PartialEq, Eq, Structural)]
pub enum ConfigGameMode {
    NoMode,
    Osu,
    Taiko,
    Catch,
    Mania,
}

/// The game mode that a mode option stands for.
pub open spec fn config_mode(mode: ConfigGameMode) -> Option<GameMode> {
    match mode {
        ConfigGameMode::NoMode => None,
        ConfigGameMode::Osu => Some(GameMode::Osu),
        ConfigGameMode::Taiko => Some(GameMode::Taiko),
        ConfigGameMode::Catch => Some(GameMode::Catch),
        ConfigGameMode::Mania => Some(GameMode::Mania),
    }
}

impl From<ConfigGameMode> for Option<GameMode> {
    fn from(mode: ConfigGameMode) -> (r: Self) {
        match mode {
            ConfigGameMode::NoMode => None,
            ConfigGameMode::Osu => Some(GameMode::Osu),
            ConfigGameMode::Taiko => Some(GameMode::Taiko),
            ConfigGameMode::Catch => Some(GameMode::Catch),
            ConfigGameMode::Mania => Some(GameMode::Mania),
        }
    }
}

impl vstd::std_specs::convert::FromSpecImpl<ConfigGameMode> for Option<GameMode> {
    open spec fn obeys_from_spec() -> bool {
        true
    }

    open spec fn from_spec(v: ConfigGameMode) -> Self {
        config_mode(v)
    }
}

/// The score-embeds option of the config command.
#[derive(Clone, Copy, Debug, PartialEq, Eq, Structural)]
pub enum ConfigEmbeds {
    InitialMax,
    AlwaysMax,
    AlwaysMin,
}

/// How large score embeds are.
#[derive(Clone, Copy, Debug, PartialEq, Eq, Structural)]
pub enum ScoreSize {
    AlwaysMinimized,
    AlwaysMaximized,
    InitialMaximized,
}

/// The embed size that a score-embeds option stands for.
pub open spec fn config_score_size(e: ConfigEmbeds) -> ScoreSize {
    match e {
        ConfigEmbeds::InitialMax => ScoreSize::InitialMaximized,
        ConfigEmbeds::AlwaysMax => ScoreSize::AlwaysMaximized,
        ConfigEmbeds::AlwaysMin => ScoreSize::AlwaysMinimized,
    }
}

impl From<ConfigEmbeds> for ScoreSize {
    fn from(e: ConfigEmbeds) -> (r: Self) {
        match e {
            ConfigEmbeds::InitialMax => ScoreSize::InitialMaximized,
            ConfigEmbeds::AlwaysMax => ScoreSize::AlwaysMaximized,
            ConfigEmbeds::AlwaysMin => ScoreSize::AlwaysMinimized,
        }
    }
}

impl vstd::std_specs::convert::FromSpecImpl<ConfigEmbeds> for ScoreSize {
    open spec fn obeys_from_spec() -> bool {
        true
    }

    open spec fn from_spec(v: ConfigEmbeds) -> Self {
        config_score_size(v)
    }
}

/// Which pp value minimized embeds show.
#[derive(Clone, Copy, Debug, PartialEq, Eq, Structural)]
pub enum ConfigMinimizedPp {
    MaxPp,
    IfFc,
}

/// The options of the config command; each is left unchanged when absent.
#[derive(Clone, Copy, Debug, Default)]
pub struct Config {
    pub mode: Option<ConfigGameMode>,
    pub score_embeds: Option<ConfigEmbeds>,
    pub retries: Option<ShowHideOption>,
}

/// The parts of a user's stored configuration that the config command sets.
#[derive(Clone, Copy, Debug, Default)]
pub struct UserConfig {
    pub mode: Option<GameMode>,
    pub score_size: Option<ScoreSize>,
    pub show_retries: Option<bool>,
}

/// A user's configuration after the config command with `args`.
pub open spec fn config_spec(c: UserConfig, args: Config) -> UserConfig {
    UserConfig {
        mode: match args.mode {
            Some(m) => config_mode(m),
            None => c.mode,
        },
        score_size: match args.score_embeds {
            Some(e) => Some(config_score_size(e)),
            None => c.score_size,
        },
        show_retries: match args.retries {
            Some(r) => Some(r == ShowHideOption::Show),
            None => c.show_retries,
        },
    }
}

/// Applies the options of the config command to a user's configuration.
pub fn config(user_config: &mut UserConfig, args: Config)
    ensures
        *final(user_config) == config_spec(*old(user_config), args),
{
    match args.mode {
        None => {},
        Some(m) => user_config.mode = Option::<GameMode>::from(m),
    }
    if let Some(score_embeds) = args.score_embeds {
        user_config.score_size = Some(ScoreSize::from(score_embeds));
    }
    if let Some(retries) = args.retries {
        user_config.show_retries = Some(
            match retries {
                ShowHideOption::Show => true,
                ShowHideOption::Hide => false,
            },
        );
    }
}

/// The options of the server config command.
#[derive(Clone, Copy, Debug)]
pub struct ServerConfig {
    pub song_commands: Option<EnableDisable>,
    pub retries: Option<ShowHideOption>,
    /// The default track limit; the command offers 1 to 100.
    pub track_limit: Option<i64>,
}

impl ServerConfig {
    /// Whether any option was given.
    pub fn any(&self) -> (r: bool)
        ensures
            r == (self.song_commands is Some || self.retries is Some || self.track_limit is Some),
    {
        self.song_commands.is_some() || self.retries.is_some() || self.track_limit.is_some()
    }
}

/// The parts of a server's stored configuration that the server config
/// command reads and sets.
#[derive(Clone, Debug, Default)]
pub struct GuildConfig {
    /// The ids of the roles with authority.
    pub authorities: Vec<u64>,
    pub show_retries: Option<bool>,
    pub track_limit: Option<u8>,
    pub with_lyrics: Option<bool>,
}

/// The view of a [`GuildConfig`].
pub struct GuildConfigView {
    pub authorities: Seq<u64>,
    pub show_retries: Option<bool>,
    pub track_limit: Option<u8>,
    pub with_lyrics: Option<bool>,
}

/// The view of a server's configuration.
pub open spec fn guild_config_view(c: GuildConfig) -> GuildConfigView {
    GuildConfigView {
        authorities: c.authorities@,
        show_retries: c.show_retries,
        track_limit: c.track_limit,
        with_lyrics: c.with_lyrics,
    }
}

/// A server's configuration after the server config command with `args`;
/// the track limit is kept in a `u8` as `as u8` truncates it.
pub open spec fn server_config_spec(c: GuildConfigView, args: ServerConfig) -> GuildConfigView {
    GuildConfigView {
        authorities: c.authorities,
        show_retries: match args.retries {
            Some(r) => Some(r == ShowHideOption::Show),
            None => c.show_retries,
        },
        track_limit: match args.track_limit {
            Some(l) => Some(l as u8),
            None => c.track_limit,
        },
        with_lyrics: match args.song_commands {
            Some(s) => Some(s == EnableDisable::Enable),
            None => c.with_lyrics,
        },
    }
}

/// Applies the options of the server config command to a server's
/// configuration.
pub fn update_guild_config(guild_config: &mut GuildConfig, args: ServerConfig)
    ensures
        guild_config_view(*final(guild_config)) == server_config_spec(
            guild_config_view(*old(guild_config)),
            args,
        ),
{
    if let Some(retries) = args.retries {
        guild_config.show_retries = Some(
            match retries {
                ShowHideOption::Show => true,
                ShowHideOption::Hide => false,
            },
        );
    }
    if let Some(limit) = args.track_limit {
        guild_config.track_limit = Some(limit as u8);
    }
    if let Some(with_lyrics) = args.song_commands {
        guild_config.with_lyrics = Some(
            match with_lyrics {
                EnableDisable::Enable => true,
                EnableDisable::Disable => false,
            },
        );
    }
}

/// The role ids of a server's authorities that are valid Discord ids (not
/// zero), in order.
pub open spec fn valid_role_ids(authorities: Seq<u64>) -> Seq<u64> {
    authorities.filter(|a: u64| a != 0)
}

/// The valid role ids among a server's authorities, whose names the server
/// config embed lists.
pub fn authority_role_ids(authorities: &Vec<u64>) -> (r: Vec<u64>)
    ensures
        r@ == valid_role_ids(authorities@),
{
    let mut out: Vec<u64> = Vec::new();
    let n = authorities.len();
    for i in 0..n
        invariant
            n == authorities@.len(),
            out@ == authorities@.subrange(0, i as int).filter(|a: u64| a != 0),
    {
        let a = authorities[i];
        let ghost pre = authorities@.subrange(0, i as int);
        assert(authorities@.subrange(0, i + 1).drop_last() =~= pre);
        proof {
            reveal(Seq::filter);
        }
        if a != 0 {
            out.push(a);
        }
    }
    assert(authorities@.subrange(0, n as int) =~= authorities@);
    out
}

/// Giving the config command the same options twice stores the same
/// configuration as giving them once.
pub proof fn law_config_idempotent(c: UserConfig, args: Config)
    ensures
        config_spec(config_spec(c, args), args) == config_spec(c, args),
{
}

/// Giving the server config command the same options twice stores the same
/// configuration as giving them once; the authorities are never changed.
pub proof fn law_server_config_idempotent(c: GuildConfigView, args: ServerConfig)
    ensures
        server_config_spec(server_config_spec(c, args), args) == server_config_spec(c, args),
        server_config_spec(c, args).authorities == c.authorities,
{
}

/// Each option of the config command sets its own part of the user's
/// configuration and each absent option keeps it: a game mode sets that
/// mode (`NoMode` clears it), an embed choice sets the matching score size,
/// the retries option whether retries show.
pub proof fn law_config_options(c: UserConfig, args: Config)
    ensures
        ({
            let n = config_spec(c, args);
            &&& args.mode is None ==> n.mode == c.mode
            &&& args.mode == Some(ConfigGameMode::NoMode) ==> n.mode is None
            &&& args.mode == Some(ConfigGameMode::Osu) ==> n.mode == Some(GameMode::Osu)
            &&& args.mode == Some(ConfigGameMode::Taiko) ==> n.mode == Some(GameMode::Taiko)
            &&& args.mode == Some(ConfigGameMode::Catch) ==> n.mode == Some(GameMode::Catch)
            &&& args.mode == Some(ConfigGameMode::Mania) ==> n.mode == Some(GameMode::Mania)
            &&& args.score_embeds is None ==> n.score_size == c.score_size
            &&& args.score_embeds == Some(ConfigEmbeds::InitialMax) ==> n.score_size == Some(ScoreSize::InitialMaximized)
            &&& args.score_embeds == Some(ConfigEmbeds::AlwaysMax) ==> n.score_size == Some(ScoreSize::AlwaysMaximized)
            &&& args.score_embeds == Some(ConfigEmbeds::AlwaysMin) ==> n.score_size == Some(ScoreSize::AlwaysMinimized)
            &&& args.retries is None ==> n.show_retries == c.show_retries
            &&& args.retries == Some(ShowHideOption::Show) ==> n.show_retries == Some(true)
            &&& args.retries == Some(ShowHideOption::Hide) ==> n.show_retries == Some(false)
        }),
{
}

/// Each option of the server config command sets its own part of the
/// server's configuration and each absent option keeps it; a track limit
/// from 1 to 100 (what the command offers) is kept as given; the
/// authorities never change.
pub proof fn law_server_config_options(c: GuildConfigView, args: ServerConfig)
    ensures
        ({
            let n = server_config_spec(c, args);
            &&& n.authorities == c.authorities
            &&& args.retries is None ==> n.show_retries == c.show_retries
            &&& args.retries == Some(ShowHideOption::Show) ==> n.show_retries == Some(true)
            &&& args.retries == Some(ShowHideOption::Hide) ==> n.show_retries == Some(false)
            &&& args.song_commands is None ==> n.with_lyrics == c.with_lyrics
            &&& args.song_commands == Some(EnableDisable::Enable) ==> n.with_lyrics == Some(true)
            &&& args.song_commands == Some(EnableDisable::Disable) ==> n.with_lyrics == Some(false)
            &&& args.track_limit is None ==> n.track_limit == c.track_limit
            &&& args.track_limit is Some && 1 <= args.track_limit->0 <= 100 ==> n.track_limit is Some
                && n.track_limit->0 == args.track_limit->0
        }),
{
}

} // verus!
