//! Editing a user's danser settings: the slash command's edit and the prefix
//! command's `key value` edit.
//!
//! The settings file also holds fractional values (cursor scale, volumes,
//! dim); those are read and written beside this module, which handles every
//! other setting that the commands touch.

use vstd::prelude::*;

use crate::skins::{file_has_extension, sorted_names, sorted_skin_names};
use crate::text::{
    decimal, push_decimal, split_pieces, parse_i32, parse_signed, parse_u64, parse_unsigned, spec_to_uppercase, str_eq, string_of,
    to_uppercase, trim_end_all, trim_end_matches, views,
};

verus! {

/// Whether an element is shown.
#[derive(Clone, Copy, Debug, PartialEq, Eq)]
pub enum Visibility {
    Show,
    Hide,
}

/// The settings that the edit commands change, other than fractional ones.
pub struct SettingsToggles {
    /// The path of the current skin folder.
    pub current_skin: String,
    pub cursor_ripples: bool,
    /// Whether the leaderboard is shown.
    pub score_board_show: bool,
    pub load_storyboards: bool,
    pub load_videos: bool,
    pub ignore_beatmap_samples: bool,
    pub pp_counter_show: bool,
    pub pp_counter_decimals: u64,
    pub hit_error_meter_show: bool,
    pub hit_error_meter_decimals: i64,
    pub aim_error_meter_show: bool,
    pub aim_error_meter_decimals: u64,
    pub hit_counter_show: bool,
    pub hit_counter_show_sliderbreaks: bool,
    pub strain_graph_show: bool,
}

/// The view of [`SettingsToggles`].
pub struct TogglesView {
    pub current_skin: Seq<char>,
    pub cursor_ripples: bool,
    pub score_board_show: bool,
    pub load_storyboards: bool,
    pub load_videos: bool,
    pub ignore_beatmap_samples: bool,
    pub pp_counter_show: bool,
    pub pp_counter_decimals: u64,
    pub hit_error_meter_show: bool,
    pub hit_error_meter_decimals: i64,
    pub aim_error_meter_show: bool,
    pub aim_error_meter_decimals: u64,
    pub hit_counter_show: bool,
    pub hit_counter_show_sliderbreaks: bool,
    pub strain_graph_show: bool,
}

impl View for SettingsToggles {
    type V = TogglesView;

    open spec fn view(&self) -> TogglesView {
        TogglesView {
            current_skin: self.current_skin@,
            cursor_ripples: self.cursor_ripples,
            score_board_show: self.score_board_show,
            load_storyboards: self.load_storyboards,
            load_videos: self.load_videos,
            ignore_beatmap_samples: self.ignore_beatmap_samples,
            pp_counter_show: self.pp_counter_show,
            pp_counter_decimals: self.pp_counter_decimals,
            hit_error_meter_show: self.hit_error_meter_show,
            hit_error_meter_decimals: self.hit_error_meter_decimals,
            aim_error_meter_show: self.aim_error_meter_show,
            aim_error_meter_decimals: self.aim_error_meter_decimals,
            hit_counter_show: self.hit_counter_show,
            hit_counter_show_sliderbreaks: self.hit_counter_show_sliderbreaks,
            strain_graph_show: self.strain_graph_show,
        }
    }
}

// ---------------------------------------------------------------------------
// Paths (std::path).

/// The last component of a path (`Path::file_name`), if it has one.
pub uninterp spec fn spec_path_file_name(path: Seq<char>) -> Option<Seq<char>>;

/// A path with its last component replaced (`PathBuf::set_file_name`).
pub uninterp spec fn spec_path_set_file_name(path: Seq<char>, name: Seq<char>) -> Seq<char>;

/// The last component of a path (`Path::file_name`), lossily as text.
#[verifier::external_body]
pub(crate) fn path_file_name(path: &str) -> (r: Option<String>)
    ensures
        match r {
            Some(n) => spec_path_file_name(path@) == Some(n@),
            None => spec_path_file_name(path@) is None,
        },
{
    std::path::Path::new(path).file_name().map(|n| n.to_string_lossy().into_owned())
}

/// Whether `name` is a plain file name: not empty, without the path
/// separator `/`, and neither `.` nor `..`.
pub open spec fn plain_file_name(name: Seq<char>) -> bool {
    &&& name.len() > 0
    &&& !name.contains('/')
    &&& !(name.len() == 1 && name[0] == '.')
    &&& !(name.len() == 2 && name[0] == '.' && name[1] == '.')
}

/// A path with its last component replaced by `name`
/// (`PathBuf::set_file_name`, which pops the last component and pushes
/// `name` when there is one). The result is named, not stated; what std
/// documents of it, that `file_name()` then gives `name`, is stated for
/// plain file names. Paths follow std's Unix rules, where `/` is the only
/// separator, as on the Linux machines the bot runs on; under Windows rules
/// a name holding `\` or a drive prefix such as `C:` would not stay one
/// component.
#[verifier::external_body]
fn path_set_file_name(path: &str, name: &str) -> (r: String)
    ensures
        r@ == spec_path_set_file_name(path@, name@),
        plain_file_name(name@) ==> spec_path_file_name(r@) == Some(name@),
{
    let mut p = std::path::PathBuf::from(path);
    p.set_file_name(name);
    p.to_string_lossy().into_owned()
}

// ---------------------------------------------------------------------------
// The slash command's edit.

/// The options of the edit command other than fractional ones and the
/// attached file.
pub struct SettingsEditArgs {
    /// The 1-based index of a skin among the skin folders in name order.
    pub skin: Option<usize>,
    pub cursor_ripples: Option<bool>,
    pub leaderboard: Option<bool>,
    pub storyboard: Option<bool>,
    pub video: Option<bool>,
    pub beatmap_hitsounds: Option<bool>,
    pub pp: Option<Visibility>,
    pub pp_decimals: Option<u32>,
    pub hit_error_meter: Option<Visibility>,
    pub hit_error_decimals: Option<u32>,
    pub aim_error_meter: Option<Visibility>,
    pub aim_error_decimals: Option<u32>,
    pub hit_counter: Option<Visibility>,
    pub sliderbreaks: Option<Visibility>,
    pub strain_graph: Option<Visibility>,
}

/// The outcome of an edit.
pub enum ModifyResult {
    /// The edit was applied; whether anything changed.
    Change(bool),
    /// The skin index is outside 1..=`max_idx`.
    InvalidSkin { max_idx: usize },
    /// The current skin path has no last component.
    MissingSkinFileName,
}

/// A boolean option applied: the new value when given.
pub open spec fn set_opt(v: bool, o: Option<bool>) -> bool {
    match o {
        Some(x) => x,
        None => v,
    }
}

/// A visibility option applied.
pub open spec fn set_vis(v: bool, o: Option<Visibility>) -> bool {
    match o {
        Some(x) => x == Visibility::Show,
        None => v,
    }
}

/// A count option applied.
pub open spec fn set_u64(v: u64, o: Option<u32>) -> u64 {
    match o {
        Some(x) => x as u64,
        None => v,
    }
}

/// A count option applied to a signed field.
pub open spec fn set_i64(v: i64, o: Option<u32>) -> i64 {
    match o {
        Some(x) => x as i64,
        None => v,
    }
}

/// The settings after every option but the skin is applied.
pub open spec fn apply_options(s: TogglesView, a: SettingsEditArgs) -> TogglesView {
    TogglesView {
        current_skin: s.current_skin,
        cursor_ripples: set_opt(s.cursor_ripples, a.cursor_ripples),
        score_board_show: set_opt(s.score_board_show, a.leaderboard),
        load_storyboards: set_opt(s.load_storyboards, a.storyboard),
        load_videos: set_opt(s.load_videos, a.video),
        ignore_beatmap_samples: set_opt(s.ignore_beatmap_samples, a.beatmap_hitsounds),
        pp_counter_show: set_vis(s.pp_counter_show, a.pp),
        pp_counter_decimals: set_u64(s.pp_counter_decimals, a.pp_decimals),
        hit_error_meter_show: set_vis(s.hit_error_meter_show, a.hit_error_meter),
        hit_error_meter_decimals: set_i64(s.hit_error_meter_decimals, a.hit_error_decimals),
        aim_error_meter_show: set_vis(s.aim_error_meter_show, a.aim_error_meter),
        aim_error_meter_decimals: set_u64(s.aim_error_meter_decimals, a.aim_error_decimals),
        hit_counter_show: set_vis(s.hit_counter_show, a.hit_counter),
        hit_counter_show_sliderbreaks: set_vis(s.hit_counter_show_sliderbreaks, a.sliderbreaks),
        strain_graph_show: set_vis(s.strain_graph_show, a.strain_graph),
    }
}

/// Whether `name` is at position `idx` of the names in order.
pub open spec fn nth_in_name_order(names: Seq<Seq<char>>, idx: int, name: Seq<char>) -> bool {
    exists|sorted: Seq<Seq<char>>|
        sorted.to_multiset() == names.to_multiset() && sorted.len() == names.len() && sorted_names(
            sorted,
        ) && #[trigger] sorted[idx] == name
}

/// The current skin after picking `name`: the path's last component
/// replaced when it differs from `name`.
pub open spec fn skin_after(current: Seq<char>, name: Seq<char>) -> Seq<char> {
    if spec_path_file_name(current) == Some(name) {
        current
    } else {
        spec_path_set_file_name(current, name)
    }
}

fn opt_bool(v: bool, o: Option<bool>) -> (r: bool)
    ensures
        r == set_opt(v, o),
{
    match o {
        Some(x) => x,
        None => v,
    }
}

fn opt_vis(v: bool, o: Option<Visibility>) -> (r: bool)
    ensures
        r == set_vis(v, o),
{
    match o {
        Some(vis) => matches!(vis, Visibility::Show),
        None => v,
    }
}

fn opt_u64(v: u64, o: Option<u32>) -> (r: u64)
    ensures
        r == set_u64(v, o),
{
    match o {
        Some(x) => x as u64,
        None => v,
    }
}

fn opt_i64(v: i64, o: Option<u32>) -> (r: i64)
    ensures
        r == set_i64(v, o),
{
    match o {
        Some(x) => x as i64,
        None => v,
    }
}

/// Applies an edit to the settings. `skin_names` are the skin folder names;
/// the skin option counts from 1 in their name order.
pub fn modify_settings(settings: &mut SettingsToggles, args: &SettingsEditArgs, skin_names: Vec<
    String,
>) -> (r: ModifyResult)
    ensures
        ({
            let s0 = old(settings)@;
            let s1 = final(settings)@;
            let names = views(skin_names@);
            match args.skin {
                Some(k) => match r {
                    ModifyResult::InvalidSkin { max_idx } => (k == 0 || k > names.len())
                        && max_idx == names.len() && s1 == s0,
                    ModifyResult::MissingSkinFileName => 1 <= k <= names.len() && spec_path_file_name(
                        s0.current_skin,
                    ) is None && s1 == s0,
                    ModifyResult::Change(changed) => 1 <= k <= names.len() && spec_path_file_name(
                        s0.current_skin,
                    ) is Some && exists|name: Seq<char>|
                        #![trigger nth_in_name_order(names, k - 1, name)]
                        {
                            let mid = TogglesView {
                                current_skin: skin_after(s0.current_skin, name),
                                ..s0
                            };
                            &&& nth_in_name_order(names, k - 1, name)
                            &&& s1 == apply_options(mid, *args)
                            &&& (changed <==> (spec_path_file_name(s0.current_skin) != Some(name)
                                || s1 != mid))
                        },
                },
                None => r matches ModifyResult::Change(changed) && s1 == apply_options(s0, *args) && (
                changed <==> s1 != s0),
            }
        }),
        (forall|i: int| 0 <= i < skin_names@.len() ==> plain_file_name(#[trigger] skin_names@[i]@))
            ==> (r matches ModifyResult::Change(changed) ==> (changed <==> final(settings)@
            != old(settings)@)),
{
    let mut changed = false;
    let ghost s0 = settings@;
    let ghost names0 = views(skin_names@);

    if let Some(skin) = args.skin {
        let sorted = sorted_skin_names(skin_names);
        if skin == 0 || skin > sorted.len() {
            return ModifyResult::InvalidSkin { max_idx: sorted.len() };
        }
        let skin_name = &sorted[skin - 1];
        let ghost sv = views(sorted@);
        assert(nth_in_name_order(views(skin_names@), skin - 1, skin_name@)) by {
            assert(sv[skin - 1] == skin_name@);
        }

        let current = match path_file_name(settings.current_skin.as_str()) {
            Some(name) => name,
            None => return ModifyResult::MissingSkinFileName,
        };

        if !str_eq(current.as_str(), skin_name.as_str()) {
            let new_path = path_set_file_name(settings.current_skin.as_str(), skin_name.as_str());
            proof {
                broadcast use vstd::seq_lib::group_to_multiset_ensures;
                if forall|i: int| 0 <= i < names0.len() ==> plain_file_name(#[trigger] names0[i]) {
                    assert(sv[skin - 1] == skin_name@);
                    assert(sv.contains(skin_name@));
                    assert(sv.to_multiset().count(skin_name@) > 0);
                    assert(names0.contains(skin_name@));
                    let i = choose|i: int| 0 <= i < names0.len() && names0[i] == skin_name@;
                    assert(plain_file_name(names0[i]));
                    assert(new_path@ != s0.current_skin);
                }
            }
            settings.current_skin = new_path;
            changed = true;
        }
        assert(settings@.current_skin == skin_after(s0.current_skin, skin_name@));
        assert(changed <==> spec_path_file_name(s0.current_skin) != Some(skin_name@));
    }
    let ghost s_mid = settings@;
    assert(!changed ==> s_mid == s0);
    let changed_options = apply_edit_options(settings, args);
    assert(settings@.current_skin == s_mid.current_skin);
    ModifyResult::Change(changed || changed_options)
}

/// Applies every option but the skin; returns whether anything changed.
fn apply_edit_options(settings: &mut SettingsToggles, args: &SettingsEditArgs) -> (changed: bool)
    ensures
        final(settings)@ == apply_options(old(settings)@, *args),
        changed <==> final(settings)@ != old(settings)@,
{
    let a = opt_bool(settings.cursor_ripples, args.cursor_ripples);
    let b = opt_bool(settings.score_board_show, args.leaderboard);
    let c = opt_bool(settings.load_storyboards, args.storyboard);
    let d = opt_bool(settings.load_videos, args.video);
    let e = opt_bool(settings.ignore_beatmap_samples, args.beatmap_hitsounds);
    let f = opt_u64(settings.pp_counter_decimals, args.pp_decimals);
    let g = opt_i64(settings.hit_error_meter_decimals, args.hit_error_decimals);
    let h = opt_u64(settings.aim_error_meter_decimals, args.aim_error_decimals);
    let i = opt_vis(settings.pp_counter_show, args.pp);
    let j = opt_vis(settings.hit_error_meter_show, args.hit_error_meter);
    let k = opt_vis(settings.aim_error_meter_show, args.aim_error_meter);
    let l = opt_vis(settings.hit_counter_show, args.hit_counter);
    let m = opt_vis(settings.hit_counter_show_sliderbreaks, args.sliderbreaks);
    let n = opt_vis(settings.strain_graph_show, args.strain_graph);

    let changed = a != settings.cursor_ripples || b != settings.score_board_show || c
        != settings.load_storyboards || d != settings.load_videos || e
        != settings.ignore_beatmap_samples || f != settings.pp_counter_decimals || g
        != settings.hit_error_meter_decimals || h != settings.aim_error_meter_decimals || i
        != settings.pp_counter_show || j != settings.hit_error_meter_show || k
        != settings.aim_error_meter_show || l != settings.hit_counter_show || m
        != settings.hit_counter_show_sliderbreaks || n != settings.strain_graph_show;

    settings.cursor_ripples = a;
    settings.score_board_show = b;
    settings.load_storyboards = c;
    settings.load_videos = d;
    settings.ignore_beatmap_samples = e;
    settings.pp_counter_decimals = f;
    settings.hit_error_meter_decimals = g;
    settings.aim_error_meter_decimals = h;
    settings.pp_counter_show = i;
    settings.hit_error_meter_show = j;
    settings.aim_error_meter_show = k;
    settings.hit_counter_show = l;
    settings.hit_counter_show_sliderbreaks = m;
    settings.strain_graph_show = n;
    proof {
        lemma_toggles_differ(old(settings)@, settings@);
    }
    changed
}

/// Whether two settings differ in a field other than the skin.
pub open spec fn options_differ(a: TogglesView, b: TogglesView) -> bool {
    ||| a.cursor_ripples != b.cursor_ripples
    ||| a.score_board_show != b.score_board_show
    ||| a.load_storyboards != b.load_storyboards
    ||| a.load_videos != b.load_videos
    ||| a.ignore_beatmap_samples != b.ignore_beatmap_samples
    ||| a.pp_counter_show != b.pp_counter_show
    ||| a.pp_counter_decimals != b.pp_counter_decimals
    ||| a.hit_error_meter_show != b.hit_error_meter_show
    ||| a.hit_error_meter_decimals != b.hit_error_meter_decimals
    ||| a.aim_error_meter_show != b.aim_error_meter_show
    ||| a.aim_error_meter_decimals != b.aim_error_meter_decimals
    ||| a.hit_counter_show != b.hit_counter_show
    ||| a.hit_counter_show_sliderbreaks != b.hit_counter_show_sliderbreaks
    ||| a.strain_graph_show != b.strain_graph_show
}

proof fn lemma_toggles_differ(a: TogglesView, b: TogglesView)
    requires
        a.current_skin == b.current_skin,
    ensures
        (a != b) <==> options_differ(a, b),
{
}


/// The skin option of the edit command as Discord hands it over: absent,
/// still being typed (autocomplete), or chosen.
pub enum SkinArgument {
    Absent,
    Focused(String),
    Completed(String),
}

/// The skin option once the command is submitted: `Err` with the typed text
/// while the user is still typing, else the chosen skin, if any.
pub fn submitted_skin(skin: SkinArgument) -> (r: Result<Option<String>, String>)
    ensures
        match skin {
            SkinArgument::Absent => r == Ok::<Option<String>, String>(None),
            SkinArgument::Focused(t) => r matches Err(e) && e@ == t@,
            SkinArgument::Completed(t) => r matches Ok(Some(c)) && c@ == t@,
        },
{
    match skin {
        SkinArgument::Absent => Ok(None),
        SkinArgument::Focused(t) => Err(t),
        SkinArgument::Completed(t) => Ok(Some(t)),
    }
}

/// Whether an attached settings file is named as JSON: the piece after its
/// last `.` is `json` (a name without `.` is its own last piece).
pub fn is_json_attachment(filename: &str) -> (r: bool)
    ensures
        r == (split_pieces(filename@, '.').last() == "json"@),
{
    file_has_extension(filename, "json")
}

/// The refusal for an attached settings file that is not named as JSON.
pub open spec fn not_json_message() -> Seq<char> {
    "The attached file must be of type .json"@
}

/// The refusal for an attached settings file that is not named as JSON.
pub fn not_json_text() -> (r: &'static str)
    ensures
        r@ == not_json_message(),
{
    "The attached file must be of type .json"
}

/// What the edit command answers.
pub enum EditReply {
    /// The settings are shown, below `content` when there is one.
    Settings(Option<String>),
    /// An error message.
    Refused(String),
}

/// The view of an edit reply: `Ok` with the text above the shown settings,
/// or `Err` with the error message.
pub open spec fn edit_reply_view(r: EditReply) -> Result<Option<Seq<char>>, Seq<char>> {
    match r {
        EditReply::Settings(c) => Ok(
            match c {
                Some(t) => Some(t@),
                None => None,
            },
        ),
        EditReply::Refused(t) => Err(t@),
    }
}

/// The answer to an edit with outcome `result`; `saved` tells whether the
/// changed settings were written back (it matters only when something
/// changed).
pub open spec fn edit_reply_spec(result: ModifyResult, saved: bool) -> Result<Option<Seq<char>>, Seq<char>> {
    match result {
        ModifyResult::Change(changed) => if !changed {
            Ok(None)
        } else if saved {
            Ok(Some("Successfully changed settings!"@))
        } else {
            Err("Failed to save modified settings"@)
        },
        ModifyResult::InvalidSkin { max_idx } => Err(
            "Invalid skin index, must be between 1 and "@ + decimal(max_idx as nat),
        ),
        ModifyResult::MissingSkinFileName => Err("Something went wrong while modifying the settings"@),
    }
}

/// What the edit command answers: the settings, below "Successfully changed
/// settings!" when something changed and was saved; the save failure when
/// it was not saved; the settings alone when nothing changed; the valid
/// range for a skin index outside it; the failure for a skin path without a
/// file name.
pub proof fn law_edit_reply(result: ModifyResult, saved: bool)
    ensures
        result == ModifyResult::Change(true) && saved ==> edit_reply_spec(result, saved)
            == Ok::<Option<Seq<char>>, Seq<char>>(Some("Successfully changed settings!"@)),
        result == ModifyResult::Change(true) && !saved ==> edit_reply_spec(result, saved)
            == Err::<Option<Seq<char>>, Seq<char>>("Failed to save modified settings"@),
        result == ModifyResult::Change(false) ==> edit_reply_spec(result, saved) == Ok::<Option<Seq<char>>, Seq<char>>(None),
        result is InvalidSkin ==> edit_reply_spec(result, saved) == Err::<Option<Seq<char>>, Seq<char>>(
            "Invalid skin index, must be between 1 and "@ + decimal(result->max_idx as nat),
        ),
        result is MissingSkinFileName ==> edit_reply_spec(result, saved) == Err::<Option<Seq<char>>, Seq<char>>(
            "Something went wrong while modifying the settings"@,
        ),
{
}

/// The answer to an edit with outcome `result`.
pub fn edit_reply(result: &ModifyResult, saved: bool) -> (r: EditReply)
    ensures
        edit_reply_view(r) == edit_reply_spec(*result, saved),
{
    match result {
        ModifyResult::Change(changed) => if !*changed {
            EditReply::Settings(None)
        } else if saved {
            EditReply::Settings(Some(string_of("Successfully changed settings!")))
        } else {
            EditReply::Refused(string_of("Failed to save modified settings"))
        },
        ModifyResult::InvalidSkin { max_idx } => {
            let mut out = string_of("Invalid skin index, must be between 1 and ");
            push_decimal(&mut out, *max_idx as u64);
            EditReply::Refused(out)
        },
        ModifyResult::MissingSkinFileName => EditReply::Refused(
            string_of("Something went wrong while modifying the settings"),
        ),
    }
}

// ---------------------------------------------------------------------------
// The prefix command's `key value` edit.

/// Why a `key value` edit was refused.
#[derive(Clone, Copy, Debug, PartialEq, Eq)]
pub enum EditSettingsError {
    InvalidAimErrorDecimals,
    InvalidCursorSize,
    InvalidDim,
    InvalidHitErrorDecimals,
    InvalidHitsoundVolume,
    InvalidMusicVolume,
    InvalidPpCounterDecimals,
    InvalidSkin,
    InvalidValue,
    MissingSkin,
    InvalidSetting,
}

/// The message shown for a refused edit.
pub open spec fn edit_error_message(e: EditSettingsError) -> Seq<char> {
    match e {
        EditSettingsError::InvalidAimErrorDecimals => "Aim error meter ur decimals have to be between 0 and 3!"@,
        EditSettingsError::InvalidCursorSize => "Cursorsize has to be between 0.1 and 2!"@,
        EditSettingsError::InvalidDim => "Dim has to be between 0.0 and 1.0!"@,
        EditSettingsError::InvalidHitErrorDecimals => "Hit error decimals have to be between 0 and 3!"@,
        EditSettingsError::InvalidHitsoundVolume => "Hitsound volume has to be between 0 and 100!"@,
        EditSettingsError::InvalidMusicVolume => "Music volume has to be between 0 and 100!"@,
        EditSettingsError::InvalidPpCounterDecimals => "PP counter decimals have to be between 0 and 3!"@,
        EditSettingsError::InvalidSkin => "Skin is not valid!"@,
        EditSettingsError::InvalidValue => "Value is not valid!"@,
        EditSettingsError::MissingSkin => "Couldn't find skin!"@,
        EditSettingsError::InvalidSetting => "The setting you tried to edit doesn't exist!"@,
    }
}

impl EditSettingsError {
    /// The message shown for this error.
    pub fn message(&self) -> (r: String)
        ensures
            r@ == edit_error_message(*self),
    {
        match self {
            EditSettingsError::InvalidAimErrorDecimals => String::from_str(
                "Aim error meter ur decimals have to be between 0 and 3!",
            ),
            EditSettingsError::InvalidCursorSize => String::from_str(
                "Cursorsize has to be between 0.1 and 2!",
            ),
            EditSettingsError::InvalidDim => String::from_str("Dim has to be between 0.0 and 1.0!"),
            EditSettingsError::InvalidHitErrorDecimals => String::from_str(
                "Hit error decimals have to be between 0 and 3!",
            ),
            EditSettingsError::InvalidHitsoundVolume => String::from_str(
                "Hitsound volume has to be between 0 and 100!",
            ),
            EditSettingsError::InvalidMusicVolume => String::from_str(
                "Music volume has to be between 0 and 100!",
            ),
            EditSettingsError::InvalidPpCounterDecimals => String::from_str(
                "PP counter decimals have to be between 0 and 3!",
            ),
            EditSettingsError::InvalidSkin => String::from_str("Skin is not valid!"),
            EditSettingsError::InvalidValue => String::from_str("Value is not valid!"),
            EditSettingsError::MissingSkin => String::from_str("Couldn't find skin!"),
            EditSettingsError::InvalidSetting => String::from_str(
                "The setting you tried to edit doesn't exist!",
            ),
        }
    }
}

/// A setting whose value is fractional, edited beside this module.
#[derive(Clone, Copy, Debug, PartialEq, Eq)]
pub enum FractionalSetting {
    /// `cursor_size`: the value as given.
    CursorSize,
    /// `dim`: the value as given.
    Dim,
    /// `music_volume` / `music`: the value without trailing `%`.
    MusicVolume,
    /// `hitsound_volume` / `hitsound`: the value without trailing `%`.
    HitsoundVolume,
}

/// The result of a `key value` edit.
pub enum EditOutcome {
    /// The setting was changed.
    Applied,
    /// A fractional setting: the text of the number to parse and check.
    Fractional { setting: FractionalSetting, value: String },
    /// The edit was refused.
    Refused(EditSettingsError),
}

/// Whether an on/off value reads as "on": its uppercase is `ON`, `TRUE` or `YES`.
pub open spec fn reads_on(value: Seq<char>) -> bool {
    let u = spec_to_uppercase(value);
    u == "ON"@ || u == "TRUE"@ || u == "YES"@
}

/// Whether an on/off value reads as "off": its uppercase is `OFF`, `FALSE` or `NO`.
pub open spec fn reads_off(value: Seq<char>) -> bool {
    let u = spec_to_uppercase(value);
    u == "OFF"@ || u == "FALSE"@ || u == "NO"@
}

fn is_on(value: &str) -> (r: bool)
    ensures
        r == reads_on(value@),
{
    let u = to_uppercase(value);
    str_eq(u.as_str(), "ON") || str_eq(u.as_str(), "TRUE") || str_eq(u.as_str(), "YES")
}

fn is_off(value: &str) -> (r: bool)
    ensures
        r == reads_off(value@),
{
    let u = to_uppercase(value);
    str_eq(u.as_str(), "OFF") || str_eq(u.as_str(), "FALSE") || str_eq(u.as_str(), "NO")
}

/// A decimal count from 0 to 3: `Ok` with it, or the error to give.
pub open spec fn decimals_value(value: Seq<char>, too_big: EditSettingsError) -> Result<u64, EditSettingsError> {
    match parse_unsigned(value, u64::MAX as nat) {
        Some(v) => if v > 3 { Err(too_big) } else { Ok(v as u64) },
        None => Err(EditSettingsError::InvalidValue),
    }
}

fn parse_decimals(value: &str, too_big: EditSettingsError) -> (r: Result<u64, EditSettingsError>)
    ensures
        r == decimals_value(value@, too_big),
{
    match parse_u64(value) {
        Some(v) => if v > 3 {
            Err(too_big)
        } else {
            Ok(v)
        },
        None => Err(EditSettingsError::InvalidValue),
    }
}

/// The setting a key of the `key value` edit names.
#[derive(Clone, Copy, Debug, PartialEq, Eq)]
pub enum SettingKey {
    Skin,
    CursorSize,
    CursorRipple,
    Storyboard,
    BackgroundVideo,
    Dim,
    MusicVolume,
    HitsoundVolume,
    BeatmapHitsounds,
    PpCounterDecimals,
    HitErrorDecimals,
    AimErrorDecimals,
    AimErrorMeter,
    HitCounter,
    Sliderbreaks,
    StrainGraph,
    Unknown,
}

/// The setting that `key` names; some settings have two names.
pub open spec fn setting_key(key: Seq<char>) -> SettingKey {
    if key == "skin"@ {
        SettingKey::Skin
    } else if key == "cursor_size"@ {
        SettingKey::CursorSize
    } else if key == "cursor_ripple"@ {
        SettingKey::CursorRipple
    } else if key == "storyboard"@ {
        SettingKey::Storyboard
    } else if key == "background_video"@ || key == "video"@ {
        SettingKey::BackgroundVideo
    } else if key == "dim"@ {
        SettingKey::Dim
    } else if key == "music_volume"@ || key == "music"@ {
        SettingKey::MusicVolume
    } else if key == "hitsound_volume"@ || key == "hitsound"@ {
        SettingKey::HitsoundVolume
    } else if key == "beatmap_hitsounds"@ {
        SettingKey::BeatmapHitsounds
    } else if key == "pp_counter_decimals"@ {
        SettingKey::PpCounterDecimals
    } else if key == "hit_error_decimals"@ {
        SettingKey::HitErrorDecimals
    } else if key == "aim_error_meter_ur_decimals"@ {
        SettingKey::AimErrorDecimals
    } else if key == "show_aim_error_meter"@ || key == "aim_error_meter"@ {
        SettingKey::AimErrorMeter
    } else if key == "show_hit_counter"@ || key == "hit_counter"@ {
        SettingKey::HitCounter
    } else if key == "show_sliderbreaks"@ {
        SettingKey::Sliderbreaks
    } else if key == "show_strain_graph"@ || key == "strain_graph"@ {
        SettingKey::StrainGraph
    } else {
        SettingKey::Unknown
    }
}

/// Names the setting that `key` edits.
pub fn classify_key(key: &str) -> (k: SettingKey)
    ensures
        k == setting_key(key@),
{
    if str_eq(key, "skin") {
        SettingKey::Skin
    } else if str_eq(key, "cursor_size") {
        SettingKey::CursorSize
    } else if str_eq(key, "cursor_ripple") {
        SettingKey::CursorRipple
    } else if str_eq(key, "storyboard") {
        SettingKey::Storyboard
    } else if str_eq(key, "background_video") || str_eq(key, "video") {
        SettingKey::BackgroundVideo
    } else if str_eq(key, "dim") {
        SettingKey::Dim
    } else if str_eq(key, "music_volume") || str_eq(key, "music") {
        SettingKey::MusicVolume
    } else if str_eq(key, "hitsound_volume") || str_eq(key, "hitsound") {
        SettingKey::HitsoundVolume
    } else if str_eq(key, "beatmap_hitsounds") {
        SettingKey::BeatmapHitsounds
    } else if str_eq(key, "pp_counter_decimals") {
        SettingKey::PpCounterDecimals
    } else if str_eq(key, "hit_error_decimals") {
        SettingKey::HitErrorDecimals
    } else if str_eq(key, "aim_error_meter_ur_decimals") {
        SettingKey::AimErrorDecimals
    } else if str_eq(key, "show_aim_error_meter") || str_eq(key, "aim_error_meter") {
        SettingKey::AimErrorMeter
    } else if str_eq(key, "show_hit_counter") || str_eq(key, "hit_counter") {
        SettingKey::HitCounter
    } else if str_eq(key, "show_sliderbreaks") {
        SettingKey::Sliderbreaks
    } else if str_eq(key, "show_strain_graph") || str_eq(key, "strain_graph") {
        SettingKey::StrainGraph
    } else {
        SettingKey::Unknown
    }
}

/// The settings with the on/off setting that `k` names set to `on`.
pub open spec fn with_toggle(s: TogglesView, k: SettingKey, on: bool) -> TogglesView {
    match k {
        SettingKey::CursorRipple => TogglesView { cursor_ripples: on, ..s },
        SettingKey::Storyboard => TogglesView { load_storyboards: on, ..s },
        SettingKey::BackgroundVideo => TogglesView { load_videos: on, ..s },
        SettingKey::BeatmapHitsounds => TogglesView { ignore_beatmap_samples: on, ..s },
        SettingKey::AimErrorMeter => TogglesView { aim_error_meter_show: on, ..s },
        SettingKey::HitCounter => TogglesView { hit_counter_show: on, ..s },
        SettingKey::Sliderbreaks => TogglesView { hit_counter_show_sliderbreaks: on, ..s },
        SettingKey::StrainGraph => TogglesView { strain_graph_show: on, ..s },
        _ => s,
    }
}

/// The settings with the decimal count that `k` names set to `v`.
pub open spec fn with_decimals(s: TogglesView, k: SettingKey, v: u64) -> TogglesView {
    match k {
        SettingKey::PpCounterDecimals => TogglesView { pp_counter_decimals: v, ..s },
        SettingKey::HitErrorDecimals => TogglesView { hit_error_meter_decimals: v as i64, ..s },
        SettingKey::AimErrorDecimals => TogglesView { aim_error_meter_decimals: v, ..s },
        _ => s,
    }
}

/// The error for a decimal count above 3 of the setting `k`.
pub open spec fn decimals_error(k: SettingKey) -> EditSettingsError {
    match k {
        SettingKey::PpCounterDecimals => EditSettingsError::InvalidPpCounterDecimals,
        SettingKey::HitErrorDecimals => EditSettingsError::InvalidHitErrorDecimals,
        _ => EditSettingsError::InvalidAimErrorDecimals,
    }
}

/// What a `key value` edit does: the settings after it (when applied) and
/// its outcome. `skins` are the skin folder names in directory order; the
/// skin value counts from 1 among them. Every on/off setting reads the value
/// as "on"; `beatmap_hitsounds` sets whether the beatmap's hitsounds are
/// ignored, which is when the value reads as "off".
pub open spec fn edit_setting_spec(s: TogglesView, key: Seq<char>, value: Seq<char>, skins: Seq<Seq<char>>) -> (TogglesView, Result<Option<(FractionalSetting, Seq<char>)>, EditSettingsError>) {
    edit_by_key(s, setting_key(key), value, skins)
}

/// What an edit of the setting `k` with `value` does.
pub open spec fn edit_by_key(s: TogglesView, k: SettingKey, value: Seq<char>, skins: Seq<Seq<char>>) -> (TogglesView, Result<Option<(FractionalSetting, Seq<char>)>, EditSettingsError>) {
    match k {
        SettingKey::Skin => match parse_signed(value, i32::MIN as int, i32::MAX as int) {
            None => (s, Err(EditSettingsError::InvalidSkin)),
            Some(v) => if 1 <= v <= skins.len() {
                (TogglesView { current_skin: skins[v - 1], ..s }, Ok(None))
            } else {
                (s, Err(EditSettingsError::MissingSkin))
            },
        },
        SettingKey::CursorSize => (s, Ok(Some((FractionalSetting::CursorSize, value)))),
        SettingKey::Dim => (s, Ok(Some((FractionalSetting::Dim, value)))),
        SettingKey::MusicVolume => (s, Ok(Some((FractionalSetting::MusicVolume, trim_end_all(value, "%"@))))),
        SettingKey::HitsoundVolume => (s, Ok(Some((FractionalSetting::HitsoundVolume, trim_end_all(value, "%"@))))),
        SettingKey::BeatmapHitsounds => (with_toggle(s, k, reads_off(value)), Ok(None)),
        SettingKey::PpCounterDecimals | SettingKey::HitErrorDecimals | SettingKey::AimErrorDecimals =>
            match decimals_value(value, decimals_error(k)) {
                Ok(v) => (with_decimals(s, k, v), Ok(None)),
                Err(e) => (s, Err(e)),
            },
        SettingKey::Unknown => (s, Err(EditSettingsError::InvalidSetting)),
        _ => (with_toggle(s, k, reads_on(value)), Ok(None)),
    }
}

fn set_toggle(settings: &mut SettingsToggles, k: SettingKey, on: bool)
    ensures
        final(settings)@ == with_toggle(old(settings)@, k, on),
{
    match k {
        SettingKey::CursorRipple => settings.cursor_ripples = on,
        SettingKey::Storyboard => settings.load_storyboards = on,
        SettingKey::BackgroundVideo => settings.load_videos = on,
        SettingKey::BeatmapHitsounds => settings.ignore_beatmap_samples = on,
        SettingKey::AimErrorMeter => settings.aim_error_meter_show = on,
        SettingKey::HitCounter => settings.hit_counter_show = on,
        SettingKey::Sliderbreaks => settings.hit_counter_show_sliderbreaks = on,
        SettingKey::StrainGraph => settings.strain_graph_show = on,
        _ => {},
    }
}

fn set_decimals(settings: &mut SettingsToggles, k: SettingKey, v: u64)
    requires
        v <= 3,
    ensures
        final(settings)@ == with_decimals(old(settings)@, k, v),
{
    match k {
        SettingKey::PpCounterDecimals => settings.pp_counter_decimals = v,
        SettingKey::HitErrorDecimals => settings.hit_error_meter_decimals = v as i64,
        SettingKey::AimErrorDecimals => settings.aim_error_meter_decimals = v,
        _ => {},
    }
}

fn decimals_error_of(k: SettingKey) -> (e: EditSettingsError)
    ensures
        e == decimals_error(k),
{
    match k {
        SettingKey::PpCounterDecimals => EditSettingsError::InvalidPpCounterDecimals,
        SettingKey::HitErrorDecimals => EditSettingsError::InvalidHitErrorDecimals,
        _ => EditSettingsError::InvalidAimErrorDecimals,
    }
}

fn set_skin_by_number(settings: &mut SettingsToggles, value: &str, skins: &Vec<String>) -> (r: EditOutcome)
    ensures
        ({
            let (s1, o) = edit_setting_spec(old(settings)@, "skin"@, value@, views(skins@));
            final(settings)@ == s1 && outcome_view(r) == o
        }),
{
    match parse_i32(value) {
        None => EditOutcome::Refused(EditSettingsError::InvalidSkin),
        Some(v) => {
            if v >= 1 && (v as usize) <= skins.len() {
                settings.current_skin = string_of(skins[(v - 1) as usize].as_str());
                EditOutcome::Applied
            } else {
                EditOutcome::Refused(EditSettingsError::MissingSkin)
            }
        },
    }
}

/// The view of an edit outcome.
pub open spec fn outcome_view(o: EditOutcome) -> Result<Option<(FractionalSetting, Seq<char>)>, EditSettingsError> {
    match o {
        EditOutcome::Applied => Ok(None),
        EditOutcome::Fractional { setting, value } => Ok(Some((setting, value@))),
        EditOutcome::Refused(e) => Err(e),
    }
}

/// Applies a `key value` edit of the prefix settings command.
pub fn edit_setting(settings: &mut SettingsToggles, key: &str, value: &str, skins: &Vec<String>) -> (r: EditOutcome)
    ensures
        ({
            let (s1, o) = edit_setting_spec(old(settings)@, key@, value@, views(skins@));
            final(settings)@ == s1 && outcome_view(r) == o
        }),
{
    let k = classify_key(key);
    match k {
        SettingKey::Skin => set_skin_by_number(settings, value, skins),
        SettingKey::CursorSize => EditOutcome::Fractional {
            setting: FractionalSetting::CursorSize,
            value: string_of(value),
        },
        SettingKey::Dim => EditOutcome::Fractional {
            setting: FractionalSetting::Dim,
            value: string_of(value),
        },
        SettingKey::MusicVolume => {
            proof {
                reveal_strlit("%");
            }
            EditOutcome::Fractional {
                setting: FractionalSetting::MusicVolume,
                value: trim_end_matches(value, "%"),
            }
        },
        SettingKey::HitsoundVolume => {
            proof {
                reveal_strlit("%");
            }
            EditOutcome::Fractional {
                setting: FractionalSetting::HitsoundVolume,
                value: trim_end_matches(value, "%"),
            }
        },
        SettingKey::BeatmapHitsounds => {
            let off = is_off(value);
            set_toggle(settings, k, off);
            EditOutcome::Applied
        },
        SettingKey::PpCounterDecimals | SettingKey::HitErrorDecimals | SettingKey::AimErrorDecimals => {
            match parse_decimals(value, decimals_error_of(k)) {
                Ok(v) => {
                    set_decimals(settings, k, v);
                    EditOutcome::Applied
                },
                Err(e) => EditOutcome::Refused(e),
            }
        },
        SettingKey::Unknown => EditOutcome::Refused(EditSettingsError::InvalidSetting),
        _ => {
            let on = is_on(value);
            set_toggle(settings, k, on);
            EditOutcome::Applied
        },
    }
}

/// Applying the options of the edit command a second time changes nothing:
/// a repeated edit reports no change.
pub proof fn law_edit_options_idempotent(s: TogglesView, a: SettingsEditArgs)
    ensures
        apply_options(apply_options(s, a), a) == apply_options(s, a),
{
}

/// Each option given to the slash edit sets its own setting to the given
/// value (a visibility option to whether it is `Show`, a count to the count);
/// each option left out keeps its setting; the skin is the skin option's
/// alone and stays.
pub proof fn law_edit_options_fields(s: TogglesView, a: SettingsEditArgs)
    ensures
        ({
            let t = apply_options(s, a);
            &&& t.current_skin == s.current_skin
            &&& (a.cursor_ripples matches Some(b) ==> t.cursor_ripples == b)
            &&& (a.cursor_ripples is None ==> t.cursor_ripples == s.cursor_ripples)
            &&& (a.leaderboard matches Some(b) ==> t.score_board_show == b)
            &&& (a.leaderboard is None ==> t.score_board_show == s.score_board_show)
            &&& (a.storyboard matches Some(b) ==> t.load_storyboards == b)
            &&& (a.storyboard is None ==> t.load_storyboards == s.load_storyboards)
            &&& (a.video matches Some(b) ==> t.load_videos == b)
            &&& (a.video is None ==> t.load_videos == s.load_videos)
            &&& (a.beatmap_hitsounds matches Some(b) ==> t.ignore_beatmap_samples == b)
            &&& (a.beatmap_hitsounds is None ==> t.ignore_beatmap_samples == s.ignore_beatmap_samples)
            &&& (a.pp matches Some(v) ==> (t.pp_counter_show <==> v == Visibility::Show))
            &&& (a.pp is None ==> t.pp_counter_show == s.pp_counter_show)
            &&& (a.hit_error_meter matches Some(v) ==> (t.hit_error_meter_show <==> v == Visibility::Show))
            &&& (a.hit_error_meter is None ==> t.hit_error_meter_show == s.hit_error_meter_show)
            &&& (a.aim_error_meter matches Some(v) ==> (t.aim_error_meter_show <==> v == Visibility::Show))
            &&& (a.aim_error_meter is None ==> t.aim_error_meter_show == s.aim_error_meter_show)
            &&& (a.hit_counter matches Some(v) ==> (t.hit_counter_show <==> v == Visibility::Show))
            &&& (a.hit_counter is None ==> t.hit_counter_show == s.hit_counter_show)
            &&& (a.sliderbreaks matches Some(v) ==> (t.hit_counter_show_sliderbreaks <==> v == Visibility::Show))
            &&& (a.sliderbreaks is None ==> t.hit_counter_show_sliderbreaks == s.hit_counter_show_sliderbreaks)
            &&& (a.strain_graph matches Some(v) ==> (t.strain_graph_show <==> v == Visibility::Show))
            &&& (a.strain_graph is None ==> t.strain_graph_show == s.strain_graph_show)
            &&& (a.pp_decimals matches Some(n) ==> t.pp_counter_decimals == n)
            &&& (a.pp_decimals is None ==> t.pp_counter_decimals == s.pp_counter_decimals)
            &&& (a.hit_error_decimals matches Some(n) ==> t.hit_error_meter_decimals == n)
            &&& (a.hit_error_decimals is None ==> t.hit_error_meter_decimals == s.hit_error_meter_decimals)
            &&& (a.aim_error_decimals matches Some(n) ==> t.aim_error_meter_decimals == n)
            &&& (a.aim_error_decimals is None ==> t.aim_error_meter_decimals == s.aim_error_meter_decimals)
        }),
{
}

/// An edit whose options all repeat the current settings and which names no
/// skin reports no change; one option that differs from its setting makes
/// the edit report a change.
pub proof fn law_edit_options_change(s: TogglesView, a: SettingsEditArgs)
    ensures
        apply_options(s, a) == s <==> !options_differ(apply_options(s, a), s),
        a.leaderboard matches Some(b) && b != s.score_board_show ==> apply_options(s, a) != s,
        a.cursor_ripples matches Some(b) && b != s.cursor_ripples ==> apply_options(s, a) != s,
        a.storyboard matches Some(b) && b != s.load_storyboards ==> apply_options(s, a) != s,
        a.video matches Some(b) && b != s.load_videos ==> apply_options(s, a) != s,
        a.beatmap_hitsounds matches Some(b) && b != s.ignore_beatmap_samples ==> apply_options(s, a) != s,
{
    lemma_toggles_differ(apply_options(s, a), s);
}

/// The keys of the `key value` edit are all different texts.
proof fn lemma_keys_distinct()
    ensures
        "cursor_size"@ != "skin"@,
        "cursor_ripple"@ != "skin"@,
        "cursor_ripple"@ != "cursor_size"@,
        "storyboard"@ != "skin"@,
        "storyboard"@ != "cursor_size"@,
        "storyboard"@ != "cursor_ripple"@,
        "background_video"@ != "skin"@,
        "background_video"@ != "cursor_size"@,
        "background_video"@ != "cursor_ripple"@,
        "background_video"@ != "storyboard"@,
        "video"@ != "skin"@,
        "video"@ != "cursor_size"@,
        "video"@ != "cursor_ripple"@,
        "video"@ != "storyboard"@,
        "video"@ != "background_video"@,
        "dim"@ != "skin"@,
        "dim"@ != "cursor_size"@,
        "dim"@ != "cursor_ripple"@,
        "dim"@ != "storyboard"@,
        "dim"@ != "background_video"@,
        "dim"@ != "video"@,
        "music_volume"@ != "skin"@,
        "music_volume"@ != "cursor_size"@,
        "music_volume"@ != "cursor_ripple"@,
        "music_volume"@ != "storyboard"@,
        "music_volume"@ != "background_video"@,
        "music_volume"@ != "video"@,
        "music_volume"@ != "dim"@,
        "music"@ != "skin"@,
        "music"@ != "cursor_size"@,
        "music"@ != "cursor_ripple"@,
        "music"@ != "storyboard"@,
        "music"@ != "background_video"@,
        "music"@ != "video"@,
        "music"@ != "dim"@,
        "music"@ != "music_volume"@,
        "hitsound_volume"@ != "skin"@,
        "hitsound_volume"@ != "cursor_size"@,
        "hitsound_volume"@ != "cursor_ripple"@,
        "hitsound_volume"@ != "storyboard"@,
        "hitsound_volume"@ != "background_video"@,
        "hitsound_volume"@ != "video"@,
        "hitsound_volume"@ != "dim"@,
        "hitsound_volume"@ != "music_volume"@,
        "hitsound_volume"@ != "music"@,
        "hitsound"@ != "skin"@,
        "hitsound"@ != "cursor_size"@,
        "hitsound"@ != "cursor_ripple"@,
        "hitsound"@ != "storyboard"@,
        "hitsound"@ != "background_video"@,
        "hitsound"@ != "video"@,
        "hitsound"@ != "dim"@,
        "hitsound"@ != "music_volume"@,
        "hitsound"@ != "music"@,
        "hitsound"@ != "hitsound_volume"@,
        "beatmap_hitsounds"@ != "skin"@,
        "beatmap_hitsounds"@ != "cursor_size"@,
        "beatmap_hitsounds"@ != "cursor_ripple"@,
        "beatmap_hitsounds"@ != "storyboard"@,
        "beatmap_hitsounds"@ != "background_video"@,
        "beatmap_hitsounds"@ != "video"@,
        "beatmap_hitsounds"@ != "dim"@,
        "beatmap_hitsounds"@ != "music_volume"@,
        "beatmap_hitsounds"@ != "music"@,
        "beatmap_hitsounds"@ != "hitsound_volume"@,
        "beatmap_hitsounds"@ != "hitsound"@,
        "pp_counter_decimals"@ != "skin"@,
        "pp_counter_decimals"@ != "cursor_size"@,
        "pp_counter_decimals"@ != "cursor_ripple"@,
        "pp_counter_decimals"@ != "storyboard"@,
        "pp_counter_decimals"@ != "background_video"@,
        "pp_counter_decimals"@ != "video"@,
        "pp_counter_decimals"@ != "dim"@,
        "pp_counter_decimals"@ != "music_volume"@,
        "pp_counter_decimals"@ != "music"@,
        "pp_counter_decimals"@ != "hitsound_volume"@,
        "pp_counter_decimals"@ != "hitsound"@,
        "pp_counter_decimals"@ != "beatmap_hitsounds"@,
        "hit_error_decimals"@ != "skin"@,
        "hit_error_decimals"@ != "cursor_size"@,
        "hit_error_decimals"@ != "cursor_ripple"@,
        "hit_error_decimals"@ != "storyboard"@,
        "hit_error_decimals"@ != "background_video"@,
        "hit_error_decimals"@ != "video"@,
        "hit_error_decimals"@ != "dim"@,
        "hit_error_decimals"@ != "music_volume"@,
        "hit_error_decimals"@ != "music"@,
        "hit_error_decimals"@ != "hitsound_volume"@,
        "hit_error_decimals"@ != "hitsound"@,
        "hit_error_decimals"@ != "beatmap_hitsounds"@,
        "hit_error_decimals"@ != "pp_counter_decimals"@,
        "aim_error_meter_ur_decimals"@ != "skin"@,
        "aim_error_meter_ur_decimals"@ != "cursor_size"@,
        "aim_error_meter_ur_decimals"@ != "cursor_ripple"@,
        "aim_error_meter_ur_decimals"@ != "storyboard"@,
        "aim_error_meter_ur_decimals"@ != "background_video"@,
        "aim_error_meter_ur_decimals"@ != "video"@,
        "aim_error_meter_ur_decimals"@ != "dim"@,
        "aim_error_meter_ur_decimals"@ != "music_volume"@,
        "aim_error_meter_ur_decimals"@ != "music"@,
        "aim_error_meter_ur_decimals"@ != "hitsound_volume"@,
        "aim_error_meter_ur_decimals"@ != "hitsound"@,
        "aim_error_meter_ur_decimals"@ != "beatmap_hitsounds"@,
        "aim_error_meter_ur_decimals"@ != "pp_counter_decimals"@,
        "aim_error_meter_ur_decimals"@ != "hit_error_decimals"@,
        "show_aim_error_meter"@ != "skin"@,
        "show_aim_error_meter"@ != "cursor_size"@,
        "show_aim_error_meter"@ != "cursor_ripple"@,
        "show_aim_error_meter"@ != "storyboard"@,
        "show_aim_error_meter"@ != "background_video"@,
        "show_aim_error_meter"@ != "video"@,
        "show_aim_error_meter"@ != "dim"@,
        "show_aim_error_meter"@ != "music_volume"@,
        "show_aim_error_meter"@ != "music"@,
        "show_aim_error_meter"@ != "hitsound_volume"@,
        "show_aim_error_meter"@ != "hitsound"@,
        "show_aim_error_meter"@ != "beatmap_hitsounds"@,
        "show_aim_error_meter"@ != "pp_counter_decimals"@,
        "show_aim_error_meter"@ != "hit_error_decimals"@,
        "show_aim_error_meter"@ != "aim_error_meter_ur_decimals"@,
        "aim_error_meter"@ != "skin"@,
        "aim_error_meter"@ != "cursor_size"@,
        "aim_error_meter"@ != "cursor_ripple"@,
        "aim_error_meter"@ != "storyboard"@,
        "aim_error_meter"@ != "background_video"@,
        "aim_error_meter"@ != "video"@,
        "aim_error_meter"@ != "dim"@,
        "aim_error_meter"@ != "music_volume"@,
        "aim_error_meter"@ != "music"@,
        "aim_error_meter"@ != "hitsound_volume"@,
        "aim_error_meter"@ != "hitsound"@,
        "aim_error_meter"@ != "beatmap_hitsounds"@,
        "aim_error_meter"@ != "pp_counter_decimals"@,
        "aim_error_meter"@ != "hit_error_decimals"@,
        "aim_error_meter"@ != "aim_error_meter_ur_decimals"@,
        "aim_error_meter"@ != "show_aim_error_meter"@,
        "show_hit_counter"@ != "skin"@,
        "show_hit_counter"@ != "cursor_size"@,
        "show_hit_counter"@ != "cursor_ripple"@,
        "show_hit_counter"@ != "storyboard"@,
        "show_hit_counter"@ != "background_video"@,
        "show_hit_counter"@ != "video"@,
        "show_hit_counter"@ != "dim"@,
        "show_hit_counter"@ != "music_volume"@,
        "show_hit_counter"@ != "music"@,
        "show_hit_counter"@ != "hitsound_volume"@,
        "show_hit_counter"@ != "hitsound"@,
        "show_hit_counter"@ != "beatmap_hitsounds"@,
        "show_hit_counter"@ != "pp_counter_decimals"@,
        "show_hit_counter"@ != "hit_error_decimals"@,
        "show_hit_counter"@ != "aim_error_meter_ur_decimals"@,
        "show_hit_counter"@ != "show_aim_error_meter"@,
        "show_hit_counter"@ != "aim_error_meter"@,
        "hit_counter"@ != "skin"@,
        "hit_counter"@ != "cursor_size"@,
        "hit_counter"@ != "cursor_ripple"@,
        "hit_counter"@ != "storyboard"@,
        "hit_counter"@ != "background_video"@,
        "hit_counter"@ != "video"@,
        "hit_counter"@ != "dim"@,
        "hit_counter"@ != "music_volume"@,
        "hit_counter"@ != "music"@,
        "hit_counter"@ != "hitsound_volume"@,
        "hit_counter"@ != "hitsound"@,
        "hit_counter"@ != "beatmap_hitsounds"@,
        "hit_counter"@ != "pp_counter_decimals"@,
        "hit_counter"@ != "hit_error_decimals"@,
        "hit_counter"@ != "aim_error_meter_ur_decimals"@,
        "hit_counter"@ != "show_aim_error_meter"@,
        "hit_counter"@ != "aim_error_meter"@,
        "hit_counter"@ != "show_hit_counter"@,
        "show_sliderbreaks"@ != "skin"@,
        "show_sliderbreaks"@ != "cursor_size"@,
        "show_sliderbreaks"@ != "cursor_ripple"@,
        "show_sliderbreaks"@ != "storyboard"@,
        "show_sliderbreaks"@ != "background_video"@,
        "show_sliderbreaks"@ != "video"@,
        "show_sliderbreaks"@ != "dim"@,
        "show_sliderbreaks"@ != "music_volume"@,
        "show_sliderbreaks"@ != "music"@,
        "show_sliderbreaks"@ != "hitsound_volume"@,
        "show_sliderbreaks"@ != "hitsound"@,
        "show_sliderbreaks"@ != "beatmap_hitsounds"@,
        "show_sliderbreaks"@ != "pp_counter_decimals"@,
        "show_sliderbreaks"@ != "hit_error_decimals"@,
        "show_sliderbreaks"@ != "aim_error_meter_ur_decimals"@,
        "show_sliderbreaks"@ != "show_aim_error_meter"@,
        "show_sliderbreaks"@ != "aim_error_meter"@,
        "show_sliderbreaks"@ != "show_hit_counter"@,
        "show_sliderbreaks"@ != "hit_counter"@,
        "show_strain_graph"@ != "skin"@,
        "show_strain_graph"@ != "cursor_size"@,
        "show_strain_graph"@ != "cursor_ripple"@,
        "show_strain_graph"@ != "storyboard"@,
        "show_strain_graph"@ != "background_video"@,
        "show_strain_graph"@ != "video"@,
        "show_strain_graph"@ != "dim"@,
        "show_strain_graph"@ != "music_volume"@,
        "show_strain_graph"@ != "music"@,
        "show_strain_graph"@ != "hitsound_volume"@,
        "show_strain_graph"@ != "hitsound"@,
        "show_strain_graph"@ != "beatmap_hitsounds"@,
        "show_strain_graph"@ != "pp_counter_decimals"@,
        "show_strain_graph"@ != "hit_error_decimals"@,
        "show_strain_graph"@ != "aim_error_meter_ur_decimals"@,
        "show_strain_graph"@ != "show_aim_error_meter"@,
        "show_strain_graph"@ != "aim_error_meter"@,
        "show_strain_graph"@ != "show_hit_counter"@,
        "show_strain_graph"@ != "hit_counter"@,
        "show_strain_graph"@ != "show_sliderbreaks"@,
        "strain_graph"@ != "skin"@,
        "strain_graph"@ != "cursor_size"@,
        "strain_graph"@ != "cursor_ripple"@,
        "strain_graph"@ != "storyboard"@,
        "strain_graph"@ != "background_video"@,
        "strain_graph"@ != "video"@,
        "strain_graph"@ != "dim"@,
        "strain_graph"@ != "music_volume"@,
        "strain_graph"@ != "music"@,
        "strain_graph"@ != "hitsound_volume"@,
        "strain_graph"@ != "hitsound"@,
        "strain_graph"@ != "beatmap_hitsounds"@,
        "strain_graph"@ != "pp_counter_decimals"@,
        "strain_graph"@ != "hit_error_decimals"@,
        "strain_graph"@ != "aim_error_meter_ur_decimals"@,
        "strain_graph"@ != "show_aim_error_meter"@,
        "strain_graph"@ != "aim_error_meter"@,
        "strain_graph"@ != "show_hit_counter"@,
        "strain_graph"@ != "hit_counter"@,
        "strain_graph"@ != "show_sliderbreaks"@,
        "strain_graph"@ != "show_strain_graph"@,
        "leaderboard"@ != "skin"@,
        "leaderboard"@ != "cursor_size"@,
        "leaderboard"@ != "cursor_ripple"@,
        "leaderboard"@ != "storyboard"@,
        "leaderboard"@ != "background_video"@,
        "leaderboard"@ != "video"@,
        "leaderboard"@ != "dim"@,
        "leaderboard"@ != "music_volume"@,
        "leaderboard"@ != "music"@,
        "leaderboard"@ != "hitsound_volume"@,
        "leaderboard"@ != "hitsound"@,
        "leaderboard"@ != "beatmap_hitsounds"@,
        "leaderboard"@ != "pp_counter_decimals"@,
        "leaderboard"@ != "hit_error_decimals"@,
        "leaderboard"@ != "aim_error_meter_ur_decimals"@,
        "leaderboard"@ != "show_aim_error_meter"@,
        "leaderboard"@ != "aim_error_meter"@,
        "leaderboard"@ != "show_hit_counter"@,
        "leaderboard"@ != "hit_counter"@,
        "leaderboard"@ != "show_sliderbreaks"@,
        "leaderboard"@ != "show_strain_graph"@,
        "leaderboard"@ != "strain_graph"@,
{
    reveal_strlit("skin");
    reveal_strlit("cursor_size");
    reveal_strlit("cursor_ripple");
    reveal_strlit("storyboard");
    reveal_strlit("background_video");
    reveal_strlit("video");
    reveal_strlit("dim");
    reveal_strlit("music_volume");
    reveal_strlit("music");
    reveal_strlit("hitsound_volume");
    reveal_strlit("hitsound");
    reveal_strlit("beatmap_hitsounds");
    reveal_strlit("pp_counter_decimals");
    reveal_strlit("hit_error_decimals");
    reveal_strlit("aim_error_meter_ur_decimals");
    reveal_strlit("show_aim_error_meter");
    reveal_strlit("aim_error_meter");
    reveal_strlit("show_hit_counter");
    reveal_strlit("hit_counter");
    reveal_strlit("show_sliderbreaks");
    reveal_strlit("show_strain_graph");
    reveal_strlit("strain_graph");
    reveal_strlit("leaderboard");
    assert("cursor_size"@.len() != "skin"@.len());
    assert("cursor_ripple"@.len() != "skin"@.len());
    assert("cursor_ripple"@.len() != "cursor_size"@.len());
    assert("storyboard"@.len() != "skin"@.len());
    assert("storyboard"@.len() != "cursor_size"@.len());
    assert("storyboard"@.len() != "cursor_ripple"@.len());
    assert("background_video"@.len() != "skin"@.len());
    assert("background_video"@.len() != "cursor_size"@.len());
    assert("background_video"@.len() != "cursor_ripple"@.len());
    assert("background_video"@.len() != "storyboard"@.len());
    assert("video"@.len() != "skin"@.len());
    assert("video"@.len() != "cursor_size"@.len());
    assert("video"@.len() != "cursor_ripple"@.len());
    assert("video"@.len() != "storyboard"@.len());
    assert("video"@.len() != "background_video"@.len());
    assert("dim"@.len() != "skin"@.len());
    assert("dim"@.len() != "cursor_size"@.len());
    assert("dim"@.len() != "cursor_ripple"@.len());
    assert("dim"@.len() != "storyboard"@.len());
    assert("dim"@.len() != "background_video"@.len());
    assert("dim"@.len() != "video"@.len());
    assert("music_volume"@.len() != "skin"@.len());
    assert("music_volume"@.len() != "cursor_size"@.len());
    assert("music_volume"@.len() != "cursor_ripple"@.len());
    assert("music_volume"@.len() != "storyboard"@.len());
    assert("music_volume"@.len() != "background_video"@.len());
    assert("music_volume"@.len() != "video"@.len());
    assert("music_volume"@.len() != "dim"@.len());
    assert("music"@.len() != "skin"@.len());
    assert("music"@.len() != "cursor_size"@.len());
    assert("music"@.len() != "cursor_ripple"@.len());
    assert("music"@.len() != "storyboard"@.len());
    assert("music"@.len() != "background_video"@.len());
    assert("music"@[0] != "video"@[0]);
    assert("music"@.len() != "dim"@.len());
    assert("music"@.len() != "music_volume"@.len());
    assert("hitsound_volume"@.len() != "skin"@.len());
    assert("hitsound_volume"@.len() != "cursor_size"@.len());
    assert("hitsound_volume"@.len() != "cursor_ripple"@.len());
    assert("hitsound_volume"@.len() != "storyboard"@.len());
    assert("hitsound_volume"@.len() != "background_video"@.len());
    assert("hitsound_volume"@.len() != "video"@.len());
    assert("hitsound_volume"@.len() != "dim"@.len());
    assert("hitsound_volume"@.len() != "music_volume"@.len());
    assert("hitsound_volume"@.len() != "music"@.len());
    assert("hitsound"@.len() != "skin"@.len());
    assert("hitsound"@.len() != "cursor_size"@.len());
    assert("hitsound"@.len() != "cursor_ripple"@.len());
    assert("hitsound"@.len() != "storyboard"@.len());
    assert("hitsound"@.len() != "background_video"@.len());
    assert("hitsound"@.len() != "video"@.len());
    assert("hitsound"@.len() != "dim"@.len());
    assert("hitsound"@.len() != "music_volume"@.len());
    assert("hitsound"@.len() != "music"@.len());
    assert("hitsound"@.len() != "hitsound_volume"@.len());
    assert("beatmap_hitsounds"@.len() != "skin"@.len());
    assert("beatmap_hitsounds"@.len() != "cursor_size"@.len());
    assert("beatmap_hitsounds"@.len() != "cursor_ripple"@.len());
    assert("beatmap_hitsounds"@.len() != "storyboard"@.len());
    assert("beatmap_hitsounds"@.len() != "background_video"@.len());
    assert("beatmap_hitsounds"@.len() != "video"@.len());
    assert("beatmap_hitsounds"@.len() != "dim"@.len());
    assert("beatmap_hitsounds"@.len() != "music_volume"@.len());
    assert("beatmap_hitsounds"@.len() != "music"@.len());
    assert("beatmap_hitsounds"@.len() != "hitsound_volume"@.len());
    assert("beatmap_hitsounds"@.len() != "hitsound"@.len());
    assert("pp_counter_decimals"@.len() != "skin"@.len());
    assert("pp_counter_decimals"@.len() != "cursor_size"@.len());
    assert("pp_counter_decimals"@.len() != "cursor_ripple"@.len());
    assert("pp_counter_decimals"@.len() != "storyboard"@.len());
    assert("pp_counter_decimals"@.len() != "background_video"@.len());
    assert("pp_counter_decimals"@.len() != "video"@.len());
    assert("pp_counter_decimals"@.len() != "dim"@.len());
    assert("pp_counter_decimals"@.len() != "music_volume"@.len());
    assert("pp_counter_decimals"@.len() != "music"@.len());
    assert("pp_counter_decimals"@.len() != "hitsound_volume"@.len());
    assert("pp_counter_decimals"@.len() != "hitsound"@.len());
    assert("pp_counter_decimals"@.len() != "beatmap_hitsounds"@.len());
    assert("hit_error_decimals"@.len() != "skin"@.len());
    assert("hit_error_decimals"@.len() != "cursor_size"@.len());
    assert("hit_error_decimals"@.len() != "cursor_ripple"@.len());
    assert("hit_error_decimals"@.len() != "storyboard"@.len());
    assert("hit_error_decimals"@.len() != "background_video"@.len());
    assert("hit_error_decimals"@.len() != "video"@.len());
    assert("hit_error_decimals"@.len() != "dim"@.len());
    assert("hit_error_decimals"@.len() != "music_volume"@.len());
    assert("hit_error_decimals"@.len() != "music"@.len());
    assert("hit_error_decimals"@.len() != "hitsound_volume"@.len());
    assert("hit_error_decimals"@.len() != "hitsound"@.len());
    assert("hit_error_decimals"@.len() != "beatmap_hitsounds"@.len());
    assert("hit_error_decimals"@.len() != "pp_counter_decimals"@.len());
    assert("aim_error_meter_ur_decimals"@.len() != "skin"@.len());
    assert("aim_error_meter_ur_decimals"@.len() != "cursor_size"@.len());
    assert("aim_error_meter_ur_decimals"@.len() != "cursor_ripple"@.len());
    assert("aim_error_meter_ur_decimals"@.len() != "storyboard"@.len());
    assert("aim_error_meter_ur_decimals"@.len() != "background_video"@.len());
    assert("aim_error_meter_ur_decimals"@.len() != "video"@.len());
    assert("aim_error_meter_ur_decimals"@.len() != "dim"@.len());
    assert("aim_error_meter_ur_decimals"@.len() != "music_volume"@.len());
    assert("aim_error_meter_ur_decimals"@.len() != "music"@.len());
    assert("aim_error_meter_ur_decimals"@.len() != "hitsound_volume"@.len());
    assert("aim_error_meter_ur_decimals"@.len() != "hitsound"@.len());
    assert("aim_error_meter_ur_decimals"@.len() != "beatmap_hitsounds"@.len());
    assert("aim_error_meter_ur_decimals"@.len() != "pp_counter_decimals"@.len());
    assert("aim_error_meter_ur_decimals"@.len() != "hit_error_decimals"@.len());
    assert("show_aim_error_meter"@.len() != "skin"@.len());
    assert("show_aim_error_meter"@.len() != "cursor_size"@.len());
    assert("show_aim_error_meter"@.len() != "cursor_ripple"@.len());
    assert("show_aim_error_meter"@.len() != "storyboard"@.len());
    assert("show_aim_error_meter"@.len() != "background_video"@.len());
    assert("show_aim_error_meter"@.len() != "video"@.len());
    assert("show_aim_error_meter"@.len() != "dim"@.len());
    assert("show_aim_error_meter"@.len() != "music_volume"@.len());
    assert("show_aim_error_meter"@.len() != "music"@.len());
    assert("show_aim_error_meter"@.len() != "hitsound_volume"@.len());
    assert("show_aim_error_meter"@.len() != "hitsound"@.len());
    assert("show_aim_error_meter"@.len() != "beatmap_hitsounds"@.len());
    assert("show_aim_error_meter"@.len() != "pp_counter_decimals"@.len());
    assert("show_aim_error_meter"@.len() != "hit_error_decimals"@.len());
    assert("show_aim_error_meter"@.len() != "aim_error_meter_ur_decimals"@.len());
    assert("aim_error_meter"@.len() != "skin"@.len());
    assert("aim_error_meter"@.len() != "cursor_size"@.len());
    assert("aim_error_meter"@.len() != "cursor_ripple"@.len());
    assert("aim_error_meter"@.len() != "storyboard"@.len());
    assert("aim_error_meter"@.len() != "background_video"@.len());
    assert("aim_error_meter"@.len() != "video"@.len());
    assert("aim_error_meter"@.len() != "dim"@.len());
    assert("aim_error_meter"@.len() != "music_volume"@.len());
    assert("aim_error_meter"@.len() != "music"@.len());
    assert("aim_error_meter"@[0] != "hitsound_volume"@[0]);
    assert("aim_error_meter"@.len() != "hitsound"@.len());
    assert("aim_error_meter"@.len() != "beatmap_hitsounds"@.len());
    assert("aim_error_meter"@.len() != "pp_counter_decimals"@.len());
    assert("aim_error_meter"@.len() != "hit_error_decimals"@.len());
    assert("aim_error_meter"@.len() != "aim_error_meter_ur_decimals"@.len());
    assert("aim_error_meter"@.len() != "show_aim_error_meter"@.len());
    assert("show_hit_counter"@.len() != "skin"@.len());
    assert("show_hit_counter"@.len() != "cursor_size"@.len());
    assert("show_hit_counter"@.len() != "cursor_ripple"@.len());
    assert("show_hit_counter"@.len() != "storyboard"@.len());
    assert("show_hit_counter"@[0] != "background_video"@[0]);
    assert("show_hit_counter"@.len() != "video"@.len());
    assert("show_hit_counter"@.len() != "dim"@.len());
    assert("show_hit_counter"@.len() != "music_volume"@.len());
    assert("show_hit_counter"@.len() != "music"@.len());
    assert("show_hit_counter"@.len() != "hitsound_volume"@.len());
    assert("show_hit_counter"@.len() != "hitsound"@.len());
    assert("show_hit_counter"@.len() != "beatmap_hitsounds"@.len());
    assert("show_hit_counter"@.len() != "pp_counter_decimals"@.len());
    assert("show_hit_counter"@.len() != "hit_error_decimals"@.len());
    assert("show_hit_counter"@.len() != "aim_error_meter_ur_decimals"@.len());
    assert("show_hit_counter"@.len() != "show_aim_error_meter"@.len());
    assert("show_hit_counter"@.len() != "aim_error_meter"@.len());
    assert("hit_counter"@.len() != "skin"@.len());
    assert("hit_counter"@[0] != "cursor_size"@[0]);
    assert("hit_counter"@.len() != "cursor_ripple"@.len());
    assert("hit_counter"@.len() != "storyboard"@.len());
    assert("hit_counter"@.len() != "background_video"@.len());
    assert("hit_counter"@.len() != "video"@.len());
    assert("hit_counter"@.len() != "dim"@.len());
    assert("hit_counter"@.len() != "music_volume"@.len());
    assert("hit_counter"@.len() != "music"@.len());
    assert("hit_counter"@.len() != "hitsound_volume"@.len());
    assert("hit_counter"@.len() != "hitsound"@.len());
    assert("hit_counter"@.len() != "beatmap_hitsounds"@.len());
    assert("hit_counter"@.len() != "pp_counter_decimals"@.len());
    assert("hit_counter"@.len() != "hit_error_decimals"@.len());
    assert("hit_counter"@.len() != "aim_error_meter_ur_decimals"@.len());
    assert("hit_counter"@.len() != "show_aim_error_meter"@.len());
    assert("hit_counter"@.len() != "aim_error_meter"@.len());
    assert("hit_counter"@.len() != "show_hit_counter"@.len());
    assert("show_sliderbreaks"@.len() != "skin"@.len());
    assert("show_sliderbreaks"@.len() != "cursor_size"@.len());
    assert("show_sliderbreaks"@.len() != "cursor_ripple"@.len());
    assert("show_sliderbreaks"@.len() != "storyboard"@.len());
    assert("show_sliderbreaks"@.len() != "background_video"@.len());
    assert("show_sliderbreaks"@.len() != "video"@.len());
    assert("show_sliderbreaks"@.len() != "dim"@.len());
    assert("show_sliderbreaks"@.len() != "music_volume"@.len());
    assert("show_sliderbreaks"@.len() != "music"@.len());
    assert("show_sliderbreaks"@.len() != "hitsound_volume"@.len());
    assert("show_sliderbreaks"@.len() != "hitsound"@.len());
    assert("show_sliderbreaks"@[0] != "beatmap_hitsounds"@[0]);
    assert("show_sliderbreaks"@.len() != "pp_counter_decimals"@.len());
    assert("show_sliderbreaks"@.len() != "hit_error_decimals"@.len());
    assert("show_sliderbreaks"@.len() != "aim_error_meter_ur_decimals"@.len());
    assert("show_sliderbreaks"@.len() != "show_aim_error_meter"@.len());
    assert("show_sliderbreaks"@.len() != "aim_error_meter"@.len());
    assert("show_sliderbreaks"@.len() != "show_hit_counter"@.len());
    assert("show_sliderbreaks"@.len() != "hit_counter"@.len());
    assert("show_strain_graph"@.len() != "skin"@.len());
    assert("show_strain_graph"@.len() != "cursor_size"@.len());
    assert("show_strain_graph"@.len() != "cursor_ripple"@.len());
    assert("show_strain_graph"@.len() != "storyboard"@.len());
    assert("show_strain_graph"@.len() != "background_video"@.len());
    assert("show_strain_graph"@.len() != "video"@.len());
    assert("show_strain_graph"@.len() != "dim"@.len());
    assert("show_strain_graph"@.len() != "music_volume"@.len());
    assert("show_strain_graph"@.len() != "music"@.len());
    assert("show_strain_graph"@.len() != "hitsound_volume"@.len());
    assert("show_strain_graph"@.len() != "hitsound"@.len());
    assert("show_strain_graph"@[0] != "beatmap_hitsounds"@[0]);
    assert("show_strain_graph"@.len() != "pp_counter_decimals"@.len());
    assert("show_strain_graph"@.len() != "hit_error_decimals"@.len());
    assert("show_strain_graph"@.len() != "aim_error_meter_ur_decimals"@.len());
    assert("show_strain_graph"@.len() != "show_aim_error_meter"@.len());
    assert("show_strain_graph"@.len() != "aim_error_meter"@.len());
    assert("show_strain_graph"@.len() != "show_hit_counter"@.len());
    assert("show_strain_graph"@.len() != "hit_counter"@.len());
    assert("show_strain_graph"@[6] != "show_sliderbreaks"@[6]);
    assert("strain_graph"@.len() != "skin"@.len());
    assert("strain_graph"@.len() != "cursor_size"@.len());
    assert("strain_graph"@.len() != "cursor_ripple"@.len());
    assert("strain_graph"@.len() != "storyboard"@.len());
    assert("strain_graph"@.len() != "background_video"@.len());
    assert("strain_graph"@.len() != "video"@.len());
    assert("strain_graph"@.len() != "dim"@.len());
    assert("strain_graph"@[0] != "music_volume"@[0]);
    assert("strain_graph"@.len() != "music"@.len());
    assert("strain_graph"@.len() != "hitsound_volume"@.len());
    assert("strain_graph"@.len() != "hitsound"@.len());
    assert("strain_graph"@.len() != "beatmap_hitsounds"@.len());
    assert("strain_graph"@.len() != "pp_counter_decimals"@.len());
    assert("strain_graph"@.len() != "hit_error_decimals"@.len());
    assert("strain_graph"@.len() != "aim_error_meter_ur_decimals"@.len());
    assert("strain_graph"@.len() != "show_aim_error_meter"@.len());
    assert("strain_graph"@.len() != "aim_error_meter"@.len());
    assert("strain_graph"@.len() != "show_hit_counter"@.len());
    assert("strain_graph"@.len() != "hit_counter"@.len());
    assert("strain_graph"@.len() != "show_sliderbreaks"@.len());
    assert("strain_graph"@.len() != "show_strain_graph"@.len());
    assert("leaderboard"@.len() != "skin"@.len());
    assert("leaderboard"@[0] != "cursor_size"@[0]);
    assert("leaderboard"@.len() != "cursor_ripple"@.len());
    assert("leaderboard"@.len() != "storyboard"@.len());
    assert("leaderboard"@.len() != "background_video"@.len());
    assert("leaderboard"@.len() != "video"@.len());
    assert("leaderboard"@.len() != "dim"@.len());
    assert("leaderboard"@.len() != "music_volume"@.len());
    assert("leaderboard"@.len() != "music"@.len());
    assert("leaderboard"@.len() != "hitsound_volume"@.len());
    assert("leaderboard"@.len() != "hitsound"@.len());
    assert("leaderboard"@.len() != "beatmap_hitsounds"@.len());
    assert("leaderboard"@.len() != "pp_counter_decimals"@.len());
    assert("leaderboard"@.len() != "hit_error_decimals"@.len());
    assert("leaderboard"@.len() != "aim_error_meter_ur_decimals"@.len());
    assert("leaderboard"@.len() != "show_aim_error_meter"@.len());
    assert("leaderboard"@.len() != "aim_error_meter"@.len());
    assert("leaderboard"@.len() != "show_hit_counter"@.len());
    assert("leaderboard"@[0] != "hit_counter"@[0]);
    assert("leaderboard"@.len() != "show_sliderbreaks"@.len());
    assert("leaderboard"@.len() != "show_strain_graph"@.len());
    assert("leaderboard"@.len() != "strain_graph"@.len());
}

/// Every key that the prefix settings command documents, and each of its
/// second names, names its own setting; none is unknown.
pub proof fn law_documented_keys()
    ensures
        setting_key("skin"@) == SettingKey::Skin,
        setting_key("cursor_size"@) == SettingKey::CursorSize,
        setting_key("cursor_ripple"@) == SettingKey::CursorRipple,
        setting_key("storyboard"@) == SettingKey::Storyboard,
        setting_key("background_video"@) == SettingKey::BackgroundVideo,
        setting_key("video"@) == SettingKey::BackgroundVideo,
        setting_key("dim"@) == SettingKey::Dim,
        setting_key("music_volume"@) == SettingKey::MusicVolume,
        setting_key("music"@) == SettingKey::MusicVolume,
        setting_key("hitsound_volume"@) == SettingKey::HitsoundVolume,
        setting_key("hitsound"@) == SettingKey::HitsoundVolume,
        setting_key("beatmap_hitsounds"@) == SettingKey::BeatmapHitsounds,
        setting_key("pp_counter_decimals"@) == SettingKey::PpCounterDecimals,
        setting_key("hit_error_decimals"@) == SettingKey::HitErrorDecimals,
        setting_key("aim_error_meter_ur_decimals"@) == SettingKey::AimErrorDecimals,
        setting_key("show_aim_error_meter"@) == SettingKey::AimErrorMeter,
        setting_key("aim_error_meter"@) == SettingKey::AimErrorMeter,
        setting_key("show_hit_counter"@) == SettingKey::HitCounter,
        setting_key("hit_counter"@) == SettingKey::HitCounter,
        setting_key("show_sliderbreaks"@) == SettingKey::Sliderbreaks,
        setting_key("show_strain_graph"@) == SettingKey::StrainGraph,
        setting_key("strain_graph"@) == SettingKey::StrainGraph,
{
    lemma_keys_distinct();
    reveal_strlit("skin");
    reveal_strlit("cursor_size");
    reveal_strlit("cursor_ripple");
    reveal_strlit("storyboard");
    reveal_strlit("background_video");
    reveal_strlit("video");
    reveal_strlit("dim");
    reveal_strlit("music_volume");
    reveal_strlit("music");
    reveal_strlit("hitsound_volume");
    reveal_strlit("hitsound");
    reveal_strlit("beatmap_hitsounds");
    reveal_strlit("pp_counter_decimals");
    reveal_strlit("hit_error_decimals");
    reveal_strlit("aim_error_meter_ur_decimals");
    reveal_strlit("show_aim_error_meter");
    reveal_strlit("aim_error_meter");
    reveal_strlit("show_hit_counter");
    reveal_strlit("hit_counter");
    reveal_strlit("show_sliderbreaks");
    reveal_strlit("show_strain_graph");
    reveal_strlit("strain_graph");
}

/// What an edit of each key does, for every value and every settings: an
/// on/off key sets its own setting to whether the value reads as "on"
/// (`beatmap_hitsounds`: whether the beatmap's hitsounds are ignored, when
/// the value reads as "off") and leaves every other setting; a fractional
/// key changes nothing here and hands its value on (the volumes without a
/// trailing `%`); a key that names no setting is refused.
pub proof fn law_edit_setting_keys(s: TogglesView, value: Seq<char>, skins: Seq<Seq<char>>)
    ensures
        edit_setting_spec(s, "cursor_ripple"@, value, skins) == (TogglesView { cursor_ripples: reads_on(value), ..s }, Ok::<Option<(FractionalSetting, Seq<char>)>, EditSettingsError>(None)),
        edit_setting_spec(s, "storyboard"@, value, skins) == (TogglesView { load_storyboards: reads_on(value), ..s }, Ok::<Option<(FractionalSetting, Seq<char>)>, EditSettingsError>(None)),
        edit_setting_spec(s, "background_video"@, value, skins) == (TogglesView { load_videos: reads_on(value), ..s }, Ok::<Option<(FractionalSetting, Seq<char>)>, EditSettingsError>(None)),
        edit_setting_spec(s, "video"@, value, skins) == (TogglesView { load_videos: reads_on(value), ..s }, Ok::<Option<(FractionalSetting, Seq<char>)>, EditSettingsError>(None)),
        edit_setting_spec(s, "show_aim_error_meter"@, value, skins) == (TogglesView { aim_error_meter_show: reads_on(value), ..s }, Ok::<Option<(FractionalSetting, Seq<char>)>, EditSettingsError>(None)),
        edit_setting_spec(s, "aim_error_meter"@, value, skins) == (TogglesView { aim_error_meter_show: reads_on(value), ..s }, Ok::<Option<(FractionalSetting, Seq<char>)>, EditSettingsError>(None)),
        edit_setting_spec(s, "show_hit_counter"@, value, skins) == (TogglesView { hit_counter_show: reads_on(value), ..s }, Ok::<Option<(FractionalSetting, Seq<char>)>, EditSettingsError>(None)),
        edit_setting_spec(s, "hit_counter"@, value, skins) == (TogglesView { hit_counter_show: reads_on(value), ..s }, Ok::<Option<(FractionalSetting, Seq<char>)>, EditSettingsError>(None)),
        edit_setting_spec(s, "show_sliderbreaks"@, value, skins) == (TogglesView { hit_counter_show_sliderbreaks: reads_on(value), ..s }, Ok::<Option<(FractionalSetting, Seq<char>)>, EditSettingsError>(None)),
        edit_setting_spec(s, "show_strain_graph"@, value, skins) == (TogglesView { strain_graph_show: reads_on(value), ..s }, Ok::<Option<(FractionalSetting, Seq<char>)>, EditSettingsError>(None)),
        edit_setting_spec(s, "strain_graph"@, value, skins) == (TogglesView { strain_graph_show: reads_on(value), ..s }, Ok::<Option<(FractionalSetting, Seq<char>)>, EditSettingsError>(None)),
        edit_setting_spec(s, "beatmap_hitsounds"@, value, skins) == (TogglesView { ignore_beatmap_samples: reads_off(value), ..s }, Ok::<Option<(FractionalSetting, Seq<char>)>, EditSettingsError>(None)),
        edit_setting_spec(s, "cursor_size"@, value, skins) == (s, Ok::<Option<(FractionalSetting, Seq<char>)>, EditSettingsError>(Some((FractionalSetting::CursorSize, value)))),
        edit_setting_spec(s, "dim"@, value, skins) == (s, Ok::<Option<(FractionalSetting, Seq<char>)>, EditSettingsError>(Some((FractionalSetting::Dim, value)))),
        edit_setting_spec(s, "music_volume"@, value, skins) == (s, Ok::<Option<(FractionalSetting, Seq<char>)>, EditSettingsError>(Some((FractionalSetting::MusicVolume, trim_end_all(value, "%"@))))),
        edit_setting_spec(s, "music"@, value, skins) == (s, Ok::<Option<(FractionalSetting, Seq<char>)>, EditSettingsError>(Some((FractionalSetting::MusicVolume, trim_end_all(value, "%"@))))),
        edit_setting_spec(s, "hitsound_volume"@, value, skins) == (s, Ok::<Option<(FractionalSetting, Seq<char>)>, EditSettingsError>(Some((FractionalSetting::HitsoundVolume, trim_end_all(value, "%"@))))),
        edit_setting_spec(s, "hitsound"@, value, skins) == (s, Ok::<Option<(FractionalSetting, Seq<char>)>, EditSettingsError>(Some((FractionalSetting::HitsoundVolume, trim_end_all(value, "%"@))))),
        edit_setting_spec(s, "leaderboard"@, value, skins) == (s, Err::<Option<(FractionalSetting, Seq<char>)>, EditSettingsError>(EditSettingsError::InvalidSetting)),
{
    lemma_keys_distinct();
    reveal_strlit("leaderboard");
    reveal_strlit("skin");
    reveal_strlit("cursor_size");
    reveal_strlit("cursor_ripple");
    reveal_strlit("storyboard");
    reveal_strlit("background_video");
    reveal_strlit("video");
    reveal_strlit("dim");
    reveal_strlit("music_volume");
    reveal_strlit("music");
    reveal_strlit("hitsound_volume");
    reveal_strlit("hitsound");
    reveal_strlit("beatmap_hitsounds");
    reveal_strlit("pp_counter_decimals");
    reveal_strlit("hit_error_decimals");
    reveal_strlit("aim_error_meter_ur_decimals");
    reveal_strlit("show_aim_error_meter");
    reveal_strlit("aim_error_meter");
    reveal_strlit("show_hit_counter");
    reveal_strlit("hit_counter");
    reveal_strlit("show_sliderbreaks");
    reveal_strlit("show_strain_graph");
    reveal_strlit("strain_graph");
}

/// What an edit of a numbered setting does, for every value: a count from
/// 0 to 3 becomes the setting's count, a larger one is refused with the
/// setting's own error, text that is no number is refused as an invalid
/// value; the skin key picks the skin at that position (from 1) among the
/// skin folders, refuses a position outside them as a missing skin and text
/// that is no number as an invalid skin.
pub proof fn law_edit_setting_numbers(s: TogglesView, value: Seq<char>, skins: Seq<Seq<char>>)
    ensures
        parse_unsigned(value, u64::MAX as nat) is Some && parse_unsigned(value, u64::MAX as nat)->0 <= 3 ==> edit_setting_spec(s, "pp_counter_decimals"@, value, skins) == (TogglesView { pp_counter_decimals: parse_unsigned(value, u64::MAX as nat)->0 as u64, ..s }, Ok::<Option<(FractionalSetting, Seq<char>)>, EditSettingsError>(None)),
        parse_unsigned(value, u64::MAX as nat) is Some && parse_unsigned(value, u64::MAX as nat)->0 > 3 ==> edit_setting_spec(s, "pp_counter_decimals"@, value, skins) == (s, Err::<Option<(FractionalSetting, Seq<char>)>, EditSettingsError>(EditSettingsError::InvalidPpCounterDecimals)),
        parse_unsigned(value, u64::MAX as nat) is None ==> edit_setting_spec(s, "pp_counter_decimals"@, value, skins) == (s, Err::<Option<(FractionalSetting, Seq<char>)>, EditSettingsError>(EditSettingsError::InvalidValue)),
        parse_unsigned(value, u64::MAX as nat) is Some && parse_unsigned(value, u64::MAX as nat)->0 <= 3 ==> edit_setting_spec(s, "hit_error_decimals"@, value, skins) == (TogglesView { hit_error_meter_decimals: parse_unsigned(value, u64::MAX as nat)->0 as i64, ..s }, Ok::<Option<(FractionalSetting, Seq<char>)>, EditSettingsError>(None)),
        parse_unsigned(value, u64::MAX as nat) is Some && parse_unsigned(value, u64::MAX as nat)->0 > 3 ==> edit_setting_spec(s, "hit_error_decimals"@, value, skins) == (s, Err::<Option<(FractionalSetting, Seq<char>)>, EditSettingsError>(EditSettingsError::InvalidHitErrorDecimals)),
        parse_unsigned(value, u64::MAX as nat) is None ==> edit_setting_spec(s, "hit_error_decimals"@, value, skins) == (s, Err::<Option<(FractionalSetting, Seq<char>)>, EditSettingsError>(EditSettingsError::InvalidValue)),
        parse_unsigned(value, u64::MAX as nat) is Some && parse_unsigned(value, u64::MAX as nat)->0 <= 3 ==> edit_setting_spec(s, "aim_error_meter_ur_decimals"@, value, skins) == (TogglesView { aim_error_meter_decimals: parse_unsigned(value, u64::MAX as nat)->0 as u64, ..s }, Ok::<Option<(FractionalSetting, Seq<char>)>, EditSettingsError>(None)),
        parse_unsigned(value, u64::MAX as nat) is Some && parse_unsigned(value, u64::MAX as nat)->0 > 3 ==> edit_setting_spec(s, "aim_error_meter_ur_decimals"@, value, skins) == (s, Err::<Option<(FractionalSetting, Seq<char>)>, EditSettingsError>(EditSettingsError::InvalidAimErrorDecimals)),
        parse_unsigned(value, u64::MAX as nat) is None ==> edit_setting_spec(s, "aim_error_meter_ur_decimals"@, value, skins) == (s, Err::<Option<(FractionalSetting, Seq<char>)>, EditSettingsError>(EditSettingsError::InvalidValue)),
        parse_signed(value, i32::MIN as int, i32::MAX as int) is Some && 1 <= parse_signed(value, i32::MIN as int, i32::MAX as int)->0 <= skins.len() ==> edit_setting_spec(s, "skin"@, value, skins) == (TogglesView { current_skin: skins[parse_signed(value, i32::MIN as int, i32::MAX as int)->0 - 1], ..s }, Ok::<Option<(FractionalSetting, Seq<char>)>, EditSettingsError>(None)),
        parse_signed(value, i32::MIN as int, i32::MAX as int) is Some && !(1 <= parse_signed(value, i32::MIN as int, i32::MAX as int)->0 <= skins.len()) ==> edit_setting_spec(s, "skin"@, value, skins) == (s, Err::<Option<(FractionalSetting, Seq<char>)>, EditSettingsError>(EditSettingsError::MissingSkin)),
        parse_signed(value, i32::MIN as int, i32::MAX as int) is None ==> edit_setting_spec(s, "skin"@, value, skins) == (s, Err::<Option<(FractionalSetting, Seq<char>)>, EditSettingsError>(EditSettingsError::InvalidSkin)),
{
    lemma_keys_distinct();
    reveal_strlit("skin");
    reveal_strlit("pp_counter_decimals");
    reveal_strlit("hit_error_decimals");
    reveal_strlit("aim_error_meter_ur_decimals");
}

/// A `key value` edit done a second time leaves the settings as the first
/// left them and gives the same outcome.
pub proof fn law_edit_setting_idempotent(s: TogglesView, key: Seq<char>, value: Seq<char>, skins: Seq<Seq<char>>)
    ensures
        edit_setting_spec(edit_setting_spec(s, key, value, skins).0, key, value, skins) == edit_setting_spec(
            s,
            key,
            value,
            skins,
        ),
{
    lemma_edit_by_key_idempotent(s, setting_key(key), value, skins);
}

proof fn lemma_with_toggle_idempotent(s: TogglesView, k: SettingKey, on: bool)
    ensures
        with_toggle(with_toggle(s, k, on), k, on) == with_toggle(s, k, on),
{
    let t = with_toggle(s, k, on);
    match k {
        SettingKey::CursorRipple => assert(with_toggle(t, k, on) =~= t),
        SettingKey::Storyboard => assert(with_toggle(t, k, on) =~= t),
        SettingKey::BackgroundVideo => assert(with_toggle(t, k, on) =~= t),
        SettingKey::BeatmapHitsounds => assert(with_toggle(t, k, on) =~= t),
        SettingKey::AimErrorMeter => assert(with_toggle(t, k, on) =~= t),
        SettingKey::HitCounter => assert(with_toggle(t, k, on) =~= t),
        SettingKey::Sliderbreaks => assert(with_toggle(t, k, on) =~= t),
        SettingKey::StrainGraph => assert(with_toggle(t, k, on) =~= t),
        _ => {},
    }
}

proof fn lemma_with_decimals_idempotent(s: TogglesView, k: SettingKey, v: u64)
    ensures
        with_decimals(with_decimals(s, k, v), k, v) == with_decimals(s, k, v),
{
}

#[verifier::rlimit(40)]
proof fn lemma_edit_by_key_idempotent(s: TogglesView, k: SettingKey, value: Seq<char>, skins: Seq<Seq<char>>)
    ensures
        edit_by_key(edit_by_key(s, k, value, skins).0, k, value, skins) == edit_by_key(s, k, value, skins),
{
    lemma_with_toggle_idempotent(s, k, reads_on(value));
    lemma_with_toggle_idempotent(s, k, reads_off(value));
    match decimals_value(value, decimals_error(k)) {
        Ok(v) => lemma_with_decimals_idempotent(s, k, v),
        Err(_) => {},
    }
}

} // verus!
