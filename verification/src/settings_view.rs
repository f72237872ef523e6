//! Showing a user's danser settings: the embed of the slash command, the
//! embed of the prefix command, and what the prefix command was asked to do.
//!
//! Fractional values (cursor scale, dim, volumes) arrive already written as
//! text; this module places them.

use vstd::prelude::*;

use crate::embed::{field, fields_view, EmbedFieldData};
use crate::settings_edit::{path_file_name, spec_path_file_name, SettingsToggles, TogglesView};
use crate::text::{
    decimal, push_decimal, push_signed_decimal, push_str, signed_decimal, split_char, split_pieces,
    str_eq, string_of, views,
};

verus! {

/// The fractional settings as they are shown.
pub struct FractionalTexts {
    pub cursor_scale: String,
    pub dim: String,
    pub music_volume: String,
    pub hitsound_volume: String,
}

/// `on` or `off`.
pub open spec fn on_off(b: bool) -> Seq<char> {
    if b {
        "on"@
    } else {
        "off"@
    }
}

fn on_off_text(b: bool) -> (r: &'static str)
    ensures
        r@ == on_off(b),
{
    if b {
        "on"
    } else {
        "off"
    }
}

// ---------------------------------------------------------------------------
// The slash command's embed.

/// The title and fields of a settings embed.
pub struct SettingsEmbedContent {
    pub title: String,
    pub fields: Vec<EmbedFieldData>,
}

pub open spec fn beatmap_field(s: TogglesView, dim: Seq<char>) -> Seq<char> {
    "`storyboard`: "@ + on_off(s.load_storyboards) + "\n`video`: "@ + on_off(s.load_videos)
        + "\n`dim`: "@ + dim + "%"@ + "\n`leaderboard`: "@ + on_off(s.score_board_show)
}

pub open spec fn audio_field(s: TogglesView, music: Seq<char>, hitsound: Seq<char>) -> Seq<char> {
    "`music volume`: "@ + music + "%"@ + "\n`hitsound volume`: "@ + hitsound + "%"@
        + "\n`beatmap hitsounds`: "@ + on_off(!s.ignore_beatmap_samples)
}

pub open spec fn cursor_field(s: TogglesView, scale: Seq<char>) -> Seq<char> {
    "`cursor scale`: "@ + scale + "\n`cursor ripples`: "@ + on_off(s.cursor_ripples)
}

pub open spec fn pp_field(s: TogglesView) -> Seq<char> {
    "`show pp counter`: "@ + on_off(s.pp_counter_show) + "\n`pp decimals`: "@ + decimal(
        s.pp_counter_decimals as nat,
    )
}

pub open spec fn hit_counter_field(s: TogglesView) -> Seq<char> {
    "`show hit counter`: "@ + on_off(s.hit_counter_show) + "\n`show sliderbreaks`: "@ + on_off(
        s.hit_counter_show_sliderbreaks,
    )
}

pub open spec fn strain_field(s: TogglesView) -> Seq<char> {
    "`show strain graph`: "@ + on_off(s.strain_graph_show)
}

pub open spec fn hit_error_field(s: TogglesView) -> Seq<char> {
    "`show hit error meter`: "@ + on_off(s.hit_error_meter_show) + "\n`hit error decimals`: "@
        + signed_decimal(s.hit_error_meter_decimals as int)
}

pub open spec fn aim_error_field(s: TogglesView) -> Seq<char> {
    "`show aim error meter`: "@ + on_off(s.aim_error_meter_show) + "\n`aim error UR decimals`: "@
        + decimal(s.aim_error_meter_decimals as nat)
}

/// The fields of the settings embed, with the skin shown by its folder name
/// and the fractional values as percentages (the cursor scale as it is).
pub open spec fn settings_fields_spec(
    skin: Seq<char>,
    s: TogglesView,
    scale: Seq<char>,
    dim: Seq<char>,
    music: Seq<char>,
    hitsound: Seq<char>,
) -> Seq<(Seq<char>, Seq<char>, bool)> {
    seq![
        ("Skin"@, "`skin`: "@ + skin, false),
        ("Beatmap"@, beatmap_field(s, dim), true),
        ("Audio"@, audio_field(s, music, hitsound), true),
        ("Cursor"@, cursor_field(s, scale), false),
        ("PP Counter"@, pp_field(s), true),
        ("Hit Counter"@, hit_counter_field(s), true),
        ("Strain Graph"@, strain_field(s), false),
        ("Hit Error Meter"@, hit_error_field(s), true),
        ("Aim Error Meter"@, aim_error_field(s), true),
    ]
}

/// The title of a settings embed.
pub open spec fn settings_title(user_name: Seq<char>) -> Seq<char> {
    "Settings for "@ + user_name
}

fn two_lines(l1: &str, v1: &str, l2: &str, v2: &str) -> (r: String)
    ensures
        r@ == l1@ + v1@ + l2@ + v2@,
{
    let mut out = String::new();
    push_str(&mut out, l1);
    push_str(&mut out, v1);
    push_str(&mut out, l2);
    push_str(&mut out, v2);
    assert(out@ =~= l1@ + v1@ + l2@ + v2@);
    out
}

fn beatmap_text(s: &SettingsToggles, dim: &str) -> (r: String)
    ensures
        r@ == beatmap_field(s@, dim@),
{
    let mut out = String::new();
    push_str(&mut out, "`storyboard`: ");
    push_str(&mut out, on_off_text(s.load_storyboards));
    push_str(&mut out, "\n`video`: ");
    push_str(&mut out, on_off_text(s.load_videos));
    push_str(&mut out, "\n`dim`: ");
    push_str(&mut out, dim);
    push_str(&mut out, "%");
    push_str(&mut out, "\n`leaderboard`: ");
    push_str(&mut out, on_off_text(s.score_board_show));
    assert(out@ =~= beatmap_field(s@, dim@));
    out
}

fn audio_text(s: &SettingsToggles, music: &str, hitsound: &str) -> (r: String)
    ensures
        r@ == audio_field(s@, music@, hitsound@),
{
    let mut out = String::new();
    push_str(&mut out, "`music volume`: ");
    push_str(&mut out, music);
    push_str(&mut out, "%");
    push_str(&mut out, "\n`hitsound volume`: ");
    push_str(&mut out, hitsound);
    push_str(&mut out, "%");
    push_str(&mut out, "\n`beatmap hitsounds`: ");
    push_str(&mut out, on_off_text(!s.ignore_beatmap_samples));
    assert(out@ =~= audio_field(s@, music@, hitsound@));
    out
}

fn with_number(label: &str, flag: bool, label2: &str, n: u64) -> (r: String)
    ensures
        r@ == label@ + on_off(flag) + label2@ + decimal(n as nat),
{
    let mut out = String::new();
    push_str(&mut out, label);
    push_str(&mut out, on_off_text(flag));
    push_str(&mut out, label2);
    push_decimal(&mut out, n);
    assert(out@ =~= label@ + on_off(flag) + label2@ + decimal(n as nat));
    out
}

fn hit_error_text(s: &SettingsToggles) -> (r: String)
    ensures
        r@ == hit_error_field(s@),
{
    let mut out = String::new();
    push_str(&mut out, "`show hit error meter`: ");
    push_str(&mut out, on_off_text(s.hit_error_meter_show));
    push_str(&mut out, "\n`hit error decimals`: ");
    push_signed_decimal(&mut out, s.hit_error_meter_decimals);
    assert(out@ =~= hit_error_field(s@));
    out
}

/// The settings embed for `skin`, the already known folder name of the skin.
fn settings_embed_with_skin(
    user_name: &str,
    skin: &str,
    settings: &SettingsToggles,
    texts: &FractionalTexts,
) -> (r: SettingsEmbedContent)
    ensures
        r.title@ == settings_title(user_name@),
        fields_view(r.fields@) == settings_fields_spec(
            skin@,
            settings@,
            texts.cursor_scale@,
            texts.dim@,
            texts.music_volume@,
            texts.hitsound_volume@,
        ),
{
    let s = settings;
    let mut fields: Vec<EmbedFieldData> = Vec::new();
    let mut skin_value = string_of("`skin`: ");
    push_str(&mut skin_value, skin);
    fields.push(field(string_of("Skin"), skin_value, false));
    fields.push(field(string_of("Beatmap"), beatmap_text(s, texts.dim.as_str()), true));
    fields.push(
        field(
            string_of("Audio"),
            audio_text(s, texts.music_volume.as_str(), texts.hitsound_volume.as_str()),
            true,
        ),
    );
    fields.push(
        field(
            string_of("Cursor"),
            two_lines(
                "`cursor scale`: ",
                texts.cursor_scale.as_str(),
                "\n`cursor ripples`: ",
                on_off_text(s.cursor_ripples),
            ),
            false,
        ),
    );
    fields.push(
        field(
            string_of("PP Counter"),
            with_number("`show pp counter`: ", s.pp_counter_show, "\n`pp decimals`: ", s.pp_counter_decimals),
            true,
        ),
    );
    fields.push(
        field(
            string_of("Hit Counter"),
            two_lines(
                "`show hit counter`: ",
                on_off_text(s.hit_counter_show),
                "\n`show sliderbreaks`: ",
                on_off_text(s.hit_counter_show_sliderbreaks),
            ),
            true,
        ),
    );
    let mut strain = string_of("`show strain graph`: ");
    push_str(&mut strain, on_off_text(s.strain_graph_show));
    fields.push(field(string_of("Strain Graph"), strain, false));
    fields.push(field(string_of("Hit Error Meter"), hit_error_text(s), true));
    fields.push(
        field(
            string_of("Aim Error Meter"),
            with_number(
                "`show aim error meter`: ",
                s.aim_error_meter_show,
                "\n`aim error UR decimals`: ",
                s.aim_error_meter_decimals,
            ),
            true,
        ),
    );
    let mut title = string_of("Settings for ");
    push_str(&mut title, user_name);
    assert(fields_view(fields@) =~~= settings_fields_spec(
        skin@,
        settings@,
        texts.cursor_scale@,
        texts.dim@,
        texts.music_volume@,
        texts.hitsound_volume@,
    ));
    SettingsEmbedContent { title, fields }
}

/// The settings embed of the slash command for the user `user_name`. The
/// skin is shown by the last component of its path, which must have one.
pub fn create_settings_embed(user_name: &str, settings: &SettingsToggles, texts: &FractionalTexts) -> (r:
    SettingsEmbedContent)
    requires
        spec_path_file_name(settings.current_skin@) is Some,
    ensures
        r.title@ == settings_title(user_name@),
        fields_view(r.fields@) == settings_fields_spec(
            spec_path_file_name(settings.current_skin@)->0,
            settings@,
            texts.cursor_scale@,
            texts.dim@,
            texts.music_volume@,
            texts.hitsound_volume@,
        ),
{
    match path_file_name(settings.current_skin.as_str()) {
        Some(skin) => settings_embed_with_skin(user_name, skin.as_str(), settings, texts),
        None => {
            proof {
                assert(false);
            }
            SettingsEmbedContent { title: String::new(), fields: Vec::new() }
        },
    }
}

/// The settings embed when the skin path has a last component, else `None`.
pub fn settings_embed(user_name: &str, settings: &SettingsToggles, texts: &FractionalTexts) -> (r: Option<
    SettingsEmbedContent,
>)
    ensures
        r is None <==> spec_path_file_name(settings.current_skin@) is None,
        r matches Some(e) ==> e.title@ == settings_title(user_name@) && fields_view(e.fields@)
            == settings_fields_spec(
            spec_path_file_name(settings.current_skin@)->0,
            settings@,
            texts.cursor_scale@,
            texts.dim@,
            texts.music_volume@,
            texts.hitsound_volume@,
        ),
{
    match path_file_name(settings.current_skin.as_str()) {
        Some(_) => Some(create_settings_embed(user_name, settings, texts)),
        None => None,
    }
}

// ---------------------------------------------------------------------------
// The prefix command.

/// What the prefix settings command was asked to do.
pub enum SettingsRequest {
    /// `copy` without a mention: the user is told to mention someone.
    CopyWithoutMention,
    /// `copy` with a mention: the mentioned user's settings are copied.
    Copy,
    /// Three words: the setting `key` is set to `value`.
    Edit { key: String, value: String },
    /// Anything else: the settings are shown.
    View,
}

/// Reads the message `content` of the prefix settings command, split on
/// single spaces; `has_mention` tells whether the message mentions a user.
pub fn settings_request(content: &str, has_mention: bool) -> (r: SettingsRequest)
    ensures
        ({
            let p = split_pieces(content@, ' ');
            if p.len() != 1 && p[1] == "copy"@ {
                if has_mention {
                    r is Copy
                } else {
                    r is CopyWithoutMention
                }
            } else if p.len() == 3 {
                r matches SettingsRequest::Edit { key, value } && key@ == p[1] && value@ == p[2]
            } else {
                r is View
            }
        }),
{
    let mut pieces = split_char(content, ' ');
    let ghost p = split_pieces(content@, ' ');
    assert(views(pieces@) == p);
    assert(pieces@.len() == p.len());
    if pieces.len() != 1 && pieces.len() > 1 && str_eq(pieces[1].as_str(), "copy") {
        assert(pieces@[1]@ == p[1]);
        if has_mention {
            SettingsRequest::Copy
        } else {
            SettingsRequest::CopyWithoutMention
        }
    } else if pieces.len() == 3 {
        assert(pieces@[1]@ == p[1]);
        assert(pieces@[2]@ == p[2]);
        let value = pieces.pop().unwrap();
        let key = pieces.pop().unwrap();
        SettingsRequest::Edit { key, value }
    } else {
        proof {
            crate::text::lemma_split_pieces_nonempty(content@, ' ');
        }
        SettingsRequest::View
    }
}

/// The settings embed of the prefix command: a title, a description, a
/// colour and a footer.
pub struct SettingsDescriptionEmbed {
    pub title: String,
    pub description: String,
    pub color: u32,
    pub footer: String,
}

/// The colour of the prefix command's settings embed.
pub const SETTINGS_EMBED_COLOR: u32 = 15785176;

/// The footer of the prefix command's settings embed.
pub open spec fn settings_footer() -> Seq<char> {
    "To edit your settings type !!settings [setting] [value] | The setting name is the same as in the embed, spaces are replaced with '_'"@
}

pub open spec fn description_cursor(s: TogglesView, scale: Seq<char>) -> Seq<char> {
    "**Skin**\n`skin`: "@ + s.current_skin + "\n\n**Cursor**\n`cursor size`: "@ + scale
        + "\n`cursor ripple`: "@ + on_off(s.cursor_ripples)
}

pub open spec fn description_beatmap(s: TogglesView, dim: Seq<char>) -> Seq<char> {
    "\n\n**Beatmap**\n`storyboard`: "@ + on_off(s.load_storyboards) + "\n`background video`: "@
        + on_off(s.load_videos) + "\n`dim`: "@ + dim
}

pub open spec fn description_audio(s: TogglesView, music: Seq<char>, hitsound: Seq<char>) -> Seq<char> {
    "\n\n**Audio**\n`music volume`: "@ + music + "%\n`hitsound volume`: "@ + hitsound
        + "%\n`beatmap hitsounds`: "@ + on_off(!s.ignore_beatmap_samples)
}

pub open spec fn description_counters(s: TogglesView) -> Seq<char> {
    "\n\n**PP Counter**\n`pp counter decimals`: "@ + decimal(s.pp_counter_decimals as nat)
        + "\n\n**Hit Error Meter**\n`hit error decimals`: "@ + signed_decimal(
        s.hit_error_meter_decimals as int,
    ) + "\n\n**Aim Error Meter**\n`show aim error meter`: "@ + on_off(s.aim_error_meter_show)
        + "\n`aim error meter ur decimals`: "@ + decimal(s.aim_error_meter_decimals as nat)
}

pub open spec fn description_tail(s: TogglesView) -> Seq<char> {
    "\n\n**Hit Counter**\n`show hit counter`: "@ + on_off(s.hit_counter_show)
        + "\n`show sliderbreaks`: "@ + on_off(s.hit_counter_show_sliderbreaks)
        + "\n\n**Strain Graph**\n`show strain graph`: "@ + on_off(s.strain_graph_show)
}

/// The description of the prefix command's settings embed: the full skin
/// path, the cursor size and dim as given, and the volumes as given
/// followed by `%`.
pub open spec fn settings_description(
    s: TogglesView,
    scale: Seq<char>,
    dim: Seq<char>,
    music: Seq<char>,
    hitsound: Seq<char>,
) -> Seq<char> {
    description_cursor(s, scale) + description_beatmap(s, dim) + description_audio(s, music, hitsound) + description_counters(s)
        + description_tail(s)
}

fn push_description_cursor(out: &mut String, s: &SettingsToggles, t: &FractionalTexts)
    ensures
        final(out)@ == old(out)@ + description_cursor(s@, t.cursor_scale@),
{
    let ghost o = out@;
    push_str(out, "**Skin**\n`skin`: ");
    push_str(out, s.current_skin.as_str());
    push_str(out, "\n\n**Cursor**\n`cursor size`: ");
    push_str(out, t.cursor_scale.as_str());
    push_str(out, "\n`cursor ripple`: ");
    push_str(out, on_off_text(s.cursor_ripples));
    assert(out@ =~= o + description_cursor(s@, t.cursor_scale@));
}

fn push_description_beatmap(out: &mut String, s: &SettingsToggles, t: &FractionalTexts)
    ensures
        final(out)@ == old(out)@ + description_beatmap(s@, t.dim@),
{
    let ghost o = out@;
    push_str(out, "\n\n**Beatmap**\n`storyboard`: ");
    push_str(out, on_off_text(s.load_storyboards));
    push_str(out, "\n`background video`: ");
    push_str(out, on_off_text(s.load_videos));
    push_str(out, "\n`dim`: ");
    push_str(out, t.dim.as_str());
    assert(out@ =~= o + description_beatmap(s@, t.dim@));
}

fn push_description_audio(out: &mut String, s: &SettingsToggles, t: &FractionalTexts)
    ensures
        final(out)@ == old(out)@ + description_audio(s@, t.music_volume@, t.hitsound_volume@),
{
    let ghost o = out@;
    push_str(out, "\n\n**Audio**\n`music volume`: ");
    push_str(out, t.music_volume.as_str());
    push_str(out, "%\n`hitsound volume`: ");
    push_str(out, t.hitsound_volume.as_str());
    push_str(out, "%\n`beatmap hitsounds`: ");
    push_str(out, on_off_text(!s.ignore_beatmap_samples));
    assert(out@ =~= o + description_audio(s@, t.music_volume@, t.hitsound_volume@));
}

fn push_description_counters(out: &mut String, s: &SettingsToggles)
    ensures
        final(out)@ == old(out)@ + description_counters(s@),
{
    let ghost o = out@;
    push_str(out, "\n\n**PP Counter**\n`pp counter decimals`: ");
    push_decimal(out, s.pp_counter_decimals);
    push_str(out, "\n\n**Hit Error Meter**\n`hit error decimals`: ");
    push_signed_decimal(out, s.hit_error_meter_decimals);
    push_str(out, "\n\n**Aim Error Meter**\n`show aim error meter`: ");
    push_str(out, on_off_text(s.aim_error_meter_show));
    push_str(out, "\n`aim error meter ur decimals`: ");
    push_decimal(out, s.aim_error_meter_decimals);
    assert(out@ =~= o + description_counters(s@));
}

fn push_description_tail(out: &mut String, s: &SettingsToggles)
    ensures
        final(out)@ == old(out)@ + description_tail(s@),
{
    let ghost o = out@;
    push_str(out, "\n\n**Hit Counter**\n`show hit counter`: ");
    push_str(out, on_off_text(s.hit_counter_show));
    push_str(out, "\n`show sliderbreaks`: ");
    push_str(out, on_off_text(s.hit_counter_show_sliderbreaks));
    push_str(out, "\n\n**Strain Graph**\n`show strain graph`: ");
    push_str(out, on_off_text(s.strain_graph_show));
    assert(out@ =~= o + description_tail(s@));
}

/// The settings embed of the prefix command for the user `user_name`.
pub fn settings_description_embed(user_name: &str, settings: &SettingsToggles, texts: &FractionalTexts) -> (r:
    SettingsDescriptionEmbed)
    ensures
        r.title@ == settings_title(user_name@),
        r.description@ == settings_description(
            settings@,
            texts.cursor_scale@,
            texts.dim@,
            texts.music_volume@,
            texts.hitsound_volume@,
        ),
        r.color == SETTINGS_EMBED_COLOR,
        r.footer@ == settings_footer(),
{
    let mut description = String::new();
    push_description_cursor(&mut description, settings, texts);
    push_description_beatmap(&mut description, settings, texts);
    push_description_audio(&mut description, settings, texts);
    push_description_counters(&mut description, settings);
    push_description_tail(&mut description, settings);
    assert(description@ =~= settings_description(
        settings@,
        texts.cursor_scale@,
        texts.dim@,
        texts.music_volume@,
        texts.hitsound_volume@,
    ));
    let mut title = string_of("Settings for ");
    push_str(&mut title, user_name);
    let footer = string_of(
        "To edit your settings type !!settings [setting] [value] | The setting name is the same as in the embed, spaces are replaced with '_'",
    );
    SettingsDescriptionEmbed { title, description, color: SETTINGS_EMBED_COLOR, footer }
}

// ---------------------------------------------------------------------------
// What the settings embeds show.

/// How a shown flag reads: `on` when it is set, `off` when not.
pub open spec fn shown(b: bool) -> Seq<char> {
    if b { "on"@ } else { "off"@ }
}

proof fn lemma_on_off_shown()
    ensures
        forall|b: bool| #[trigger] on_off(b) == shown(b),
{
}

/// The slash command's settings embed shows every setting on a line of its
/// own, each on/off line by its own flag: the storyboard, video and
/// leaderboard lines of the Beatmap field by whether storyboards load,
/// videos load and the leaderboard shows; the beatmap hitsounds line by
/// whether the beatmap's hitsounds are not ignored; the counts in decimal.
pub proof fn law_settings_embed_lines(
    skin: Seq<char>,
    s: TogglesView,
    scale: Seq<char>,
    dim: Seq<char>,
    music: Seq<char>,
    hitsound: Seq<char>,
)
    ensures
        settings_fields_spec(skin, s, scale, dim, music, hitsound).len() == 9,
        settings_fields_spec(skin, s, scale, dim, music, hitsound)[0] == ("Skin"@, "`skin`: "@ + skin, false),
        settings_fields_spec(skin, s, scale, dim, music, hitsound)[1] == ("Beatmap"@, "`storyboard`: "@ + shown(s.load_storyboards) + "\n`video`: "@ + shown(s.load_videos) + "\n`dim`: "@ + dim + "%"@ + "\n`leaderboard`: "@ + shown(s.score_board_show), true),
        settings_fields_spec(skin, s, scale, dim, music, hitsound)[2] == ("Audio"@, "`music volume`: "@ + music + "%"@ + "\n`hitsound volume`: "@ + hitsound + "%"@ + "\n`beatmap hitsounds`: "@ + shown(!s.ignore_beatmap_samples), true),
        settings_fields_spec(skin, s, scale, dim, music, hitsound)[3] == ("Cursor"@, "`cursor scale`: "@ + scale + "\n`cursor ripples`: "@ + shown(s.cursor_ripples), false),
        settings_fields_spec(skin, s, scale, dim, music, hitsound)[4] == ("PP Counter"@, "`show pp counter`: "@ + shown(s.pp_counter_show) + "\n`pp decimals`: "@ + decimal(s.pp_counter_decimals as nat), true),
        settings_fields_spec(skin, s, scale, dim, music, hitsound)[5] == ("Hit Counter"@, "`show hit counter`: "@ + shown(s.hit_counter_show) + "\n`show sliderbreaks`: "@ + shown(s.hit_counter_show_sliderbreaks), true),
        settings_fields_spec(skin, s, scale, dim, music, hitsound)[6] == ("Strain Graph"@, "`show strain graph`: "@ + shown(s.strain_graph_show), false),
        settings_fields_spec(skin, s, scale, dim, music, hitsound)[7] == ("Hit Error Meter"@, "`show hit error meter`: "@ + shown(s.hit_error_meter_show) + "\n`hit error decimals`: "@ + signed_decimal(s.hit_error_meter_decimals as int), true),
        settings_fields_spec(skin, s, scale, dim, music, hitsound)[8] == ("Aim Error Meter"@, "`show aim error meter`: "@ + shown(s.aim_error_meter_show) + "\n`aim error UR decimals`: "@ + decimal(s.aim_error_meter_decimals as nat), true),
{
    lemma_on_off_shown();
}

/// The prefix command's settings description shows every setting on a line
/// of its own, each on/off line by its own flag, in the order of the
/// command's help.
pub proof fn law_settings_description_lines(
    s: TogglesView,
    scale: Seq<char>,
    dim: Seq<char>,
    music: Seq<char>,
    hitsound: Seq<char>,
)
    ensures
        settings_description(s, scale, dim, music, hitsound) == ("**Skin**\n`skin`: "@ + s.current_skin + "\n\n**Cursor**\n`cursor size`: "@ + scale
                + "\n`cursor ripple`: "@ + shown(s.cursor_ripples))
            + ("\n\n**Beatmap**\n`storyboard`: "@ + shown(s.load_storyboards) + "\n`background video`: "@
                + shown(s.load_videos) + "\n`dim`: "@ + dim)
            + ("\n\n**Audio**\n`music volume`: "@ + music + "%\n`hitsound volume`: "@ + hitsound
                + "%\n`beatmap hitsounds`: "@ + shown(!s.ignore_beatmap_samples))
            + ("\n\n**PP Counter**\n`pp counter decimals`: "@ + decimal(s.pp_counter_decimals as nat)
                + "\n\n**Hit Error Meter**\n`hit error decimals`: "@ + signed_decimal(
                s.hit_error_meter_decimals as int,
            ) + "\n\n**Aim Error Meter**\n`show aim error meter`: "@ + shown(s.aim_error_meter_show)
                + "\n`aim error meter ur decimals`: "@ + decimal(s.aim_error_meter_decimals as nat))
            + ("\n\n**Hit Counter**\n`show hit counter`: "@ + shown(s.hit_counter_show)
                + "\n`show sliderbreaks`: "@ + shown(s.hit_counter_show_sliderbreaks)
                + "\n\n**Strain Graph**\n`show strain graph`: "@ + shown(s.strain_graph_show)),
{
    lemma_on_off_shown();
}

} // verus!
