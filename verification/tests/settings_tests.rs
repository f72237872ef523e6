use shishabot::settings_edit::{
    classify_key, edit_reply, submitted_skin, SkinArgument, edit_setting, is_json_attachment, modify_settings, not_json_text,
    EditOutcome, EditReply, EditSettingsError,
    FractionalSetting, ModifyResult, SettingKey, SettingsEditArgs, SettingsToggles, Visibility,
};
use shishabot::settings_view::{
    create_settings_embed, settings_description_embed, settings_embed, settings_request,
    FractionalTexts, SettingsRequest, SETTINGS_EMBED_COLOR,
};

fn toggles(skin: &str) -> SettingsToggles {
    SettingsToggles {
        current_skin: skin.to_string(),
        cursor_ripples: false,
        score_board_show: true,
        load_storyboards: true,
        load_videos: false,
        ignore_beatmap_samples: false,
        pp_counter_show: true,
        pp_counter_decimals: 0,
        hit_error_meter_show: true,
        hit_error_meter_decimals: 0,
        aim_error_meter_show: false,
        aim_error_meter_decimals: 0,
        hit_counter_show: true,
        hit_counter_show_sliderbreaks: false,
        strain_graph_show: true,
    }
}

fn no_options() -> SettingsEditArgs {
    SettingsEditArgs {
        skin: None,
        cursor_ripples: None,
        leaderboard: None,
        storyboard: None,
        video: None,
        beatmap_hitsounds: None,
        pp: None,
        pp_decimals: None,
        hit_error_meter: None,
        hit_error_decimals: None,
        aim_error_meter: None,
        aim_error_decimals: None,
        hit_counter: None,
        sliderbreaks: None,
        strain_graph: None,
    }
}

fn skins(names: &[&str]) -> Vec<String> {
    names.iter().map(|s| s.to_string()).collect()
}

fn same(a: &SettingsToggles, b: &SettingsToggles) -> bool {
    a.current_skin == b.current_skin
        && a.cursor_ripples == b.cursor_ripples
        && a.score_board_show == b.score_board_show
        && a.load_storyboards == b.load_storyboards
        && a.load_videos == b.load_videos
        && a.ignore_beatmap_samples == b.ignore_beatmap_samples
        && a.pp_counter_show == b.pp_counter_show
        && a.pp_counter_decimals == b.pp_counter_decimals
        && a.hit_error_meter_show == b.hit_error_meter_show
        && a.hit_error_meter_decimals == b.hit_error_meter_decimals
        && a.aim_error_meter_show == b.aim_error_meter_show
        && a.aim_error_meter_decimals == b.aim_error_meter_decimals
        && a.hit_counter_show == b.hit_counter_show
        && a.hit_counter_show_sliderbreaks == b.hit_counter_show_sliderbreaks
        && a.strain_graph_show == b.strain_graph_show
}

#[test]
fn skin_picked_in_name_order_replaces_last_path_component() {
    let mut s = toggles("../Skins/Old");
    let mut args = no_options();
    args.skin = Some(1);
    let r = modify_settings(&mut s, &args, skins(&["b", "a", "c"]));
    assert!(matches!(r, ModifyResult::Change(true)));
    assert_eq!(s.current_skin, "../Skins/a");
    let r = modify_settings(&mut s, &args, skins(&["b", "a", "c"]));
    assert!(matches!(r, ModifyResult::Change(false)));
    assert_eq!(s.current_skin, "../Skins/a");
}

#[test]
fn skin_index_out_of_range() {
    let mut s = toggles("../Skins/Old");
    let mut args = no_options();
    args.skin = Some(0);
    let r = modify_settings(&mut s, &args, skins(&["b", "a", "c"]));
    assert!(matches!(r, ModifyResult::InvalidSkin { max_idx: 3 }));
    args.skin = Some(4);
    let r = modify_settings(&mut s, &args, skins(&["b", "a", "c"]));
    assert!(matches!(r, ModifyResult::InvalidSkin { max_idx: 3 }));
    assert_eq!(s.current_skin, "../Skins/Old");
}

#[test]
fn skin_path_without_file_name() {
    let mut s = toggles("");
    let mut args = no_options();
    args.skin = Some(1);
    let r = modify_settings(&mut s, &args, skins(&["a"]));
    assert!(matches!(r, ModifyResult::MissingSkinFileName));
    assert_eq!(s.current_skin, "");
}

#[test]
fn options_are_applied_and_repeating_them_changes_nothing() {
    let mut s = toggles("../Skins/a");
    let mut args = no_options();
    args.cursor_ripples = Some(true);
    args.pp = Some(Visibility::Hide);
    args.hit_error_decimals = Some(2);
    args.strain_graph = Some(Visibility::Show);
    let r = modify_settings(&mut s, &args, Vec::new());
    assert!(matches!(r, ModifyResult::Change(true)));
    assert!(s.cursor_ripples);
    assert!(!s.pp_counter_show);
    assert_eq!(s.hit_error_meter_decimals, 2);
    assert!(s.strain_graph_show);
    let before = toggles("../Skins/a");
    let mut again = toggles("../Skins/a");
    modify_settings(&mut again, &args, Vec::new());
    let r = modify_settings(&mut again, &args, Vec::new());
    assert!(matches!(r, ModifyResult::Change(false)));
    assert!(same(&again, &s));
    assert!(!same(&again, &before));
}

#[test]
fn no_options_no_change() {
    let mut s = toggles("../Skins/a");
    let r = modify_settings(&mut s, &no_options(), Vec::new());
    assert!(matches!(r, ModifyResult::Change(false)));
    assert!(same(&s, &toggles("../Skins/a")));
}

#[test]
fn keys_name_settings() {
    assert_eq!(classify_key("video"), SettingKey::BackgroundVideo);
    assert_eq!(classify_key("background_video"), SettingKey::BackgroundVideo);
    assert_eq!(classify_key("music"), SettingKey::MusicVolume);
    assert_eq!(classify_key("hit_counter"), SettingKey::HitCounter);
    assert_eq!(classify_key("Dim"), SettingKey::Unknown);
}

fn refused(o: EditOutcome) -> Option<EditSettingsError> {
    match o {
        EditOutcome::Refused(e) => Some(e),
        _ => None,
    }
}

#[test]
fn skin_by_number_in_directory_order() {
    let list = skins(&["x", "y"]);
    let mut s = toggles("../Skins/a");
    assert!(matches!(edit_setting(&mut s, "skin", "2", &list), EditOutcome::Applied));
    assert_eq!(s.current_skin, "y");
    assert_eq!(refused(edit_setting(&mut s, "skin", "abc", &list)), Some(EditSettingsError::InvalidSkin));
    assert_eq!(refused(edit_setting(&mut s, "skin", "3", &list)), Some(EditSettingsError::MissingSkin));
    assert_eq!(refused(edit_setting(&mut s, "skin", "0", &list)), Some(EditSettingsError::MissingSkin));
    assert_eq!(s.current_skin, "y");
}

#[test]
fn on_off_values() {
    let list = Vec::new();
    let mut s = toggles("a");
    edit_setting(&mut s, "cursor_ripple", "on", &list);
    assert!(s.cursor_ripples);
    edit_setting(&mut s, "cursor_ripple", "Off", &list);
    assert!(!s.cursor_ripples);
    edit_setting(&mut s, "storyboard", "nope", &list);
    assert!(!s.load_storyboards);
    edit_setting(&mut s, "video", "YES", &list);
    assert!(s.load_videos);
    edit_setting(&mut s, "strain_graph", "true", &list);
    assert!(s.strain_graph_show);
    edit_setting(&mut s, "show_sliderbreaks", "on", &list);
    assert!(s.hit_counter_show_sliderbreaks);
    edit_setting(&mut s, "aim_error_meter", "on", &list);
    assert!(s.aim_error_meter_show);
    edit_setting(&mut s, "show_hit_counter", "no", &list);
    assert!(!s.hit_counter_show);
    edit_setting(&mut s, "beatmap_hitsounds", "off", &list);
    assert!(s.ignore_beatmap_samples);
    edit_setting(&mut s, "beatmap_hitsounds", "maybe", &list);
    assert!(!s.ignore_beatmap_samples);
}

#[test]
fn decimal_counts() {
    let list = Vec::new();
    let mut s = toggles("a");
    assert!(matches!(edit_setting(&mut s, "pp_counter_decimals", "3", &list), EditOutcome::Applied));
    assert_eq!(s.pp_counter_decimals, 3);
    assert_eq!(
        refused(edit_setting(&mut s, "pp_counter_decimals", "4", &list)),
        Some(EditSettingsError::InvalidPpCounterDecimals)
    );
    assert_eq!(
        refused(edit_setting(&mut s, "pp_counter_decimals", "x", &list)),
        Some(EditSettingsError::InvalidValue)
    );
    assert_eq!(
        refused(edit_setting(&mut s, "hit_error_decimals", "9", &list)),
        Some(EditSettingsError::InvalidHitErrorDecimals)
    );
    edit_setting(&mut s, "hit_error_decimals", "2", &list);
    assert_eq!(s.hit_error_meter_decimals, 2);
    assert_eq!(
        refused(edit_setting(&mut s, "aim_error_meter_ur_decimals", "-1", &list)),
        Some(EditSettingsError::InvalidValue)
    );
    assert_eq!(
        refused(edit_setting(&mut s, "aim_error_meter_ur_decimals", "10", &list)),
        Some(EditSettingsError::InvalidAimErrorDecimals)
    );
    assert_eq!(s.pp_counter_decimals, 3);
}

#[test]
fn fractional_values_are_handed_back() {
    let list = Vec::new();
    let mut s = toggles("a");
    match edit_setting(&mut s, "music", "50%%", &list) {
        EditOutcome::Fractional { setting, value } => {
            assert_eq!(setting, FractionalSetting::MusicVolume);
            assert_eq!(value, "50");
        }
        _ => panic!("expected a fractional setting"),
    }
    match edit_setting(&mut s, "cursor_size", "1.5", &list) {
        EditOutcome::Fractional { setting, value } => {
            assert_eq!(setting, FractionalSetting::CursorSize);
            assert_eq!(value, "1.5");
        }
        _ => panic!("expected a fractional setting"),
    }
    match edit_setting(&mut s, "dim", "0.5%", &list) {
        EditOutcome::Fractional { setting, value } => {
            assert_eq!(setting, FractionalSetting::Dim);
            assert_eq!(value, "0.5%");
        }
        _ => panic!("expected a fractional setting"),
    }
    match edit_setting(&mut s, "hitsound_volume", "70", &list) {
        EditOutcome::Fractional { setting, value } => {
            assert_eq!(setting, FractionalSetting::HitsoundVolume);
            assert_eq!(value, "70");
        }
        _ => panic!("expected a fractional setting"),
    }
    assert!(same(&s, &toggles("a")));
}

#[test]
fn unknown_setting() {
    let mut s = toggles("a");
    assert_eq!(
        refused(edit_setting(&mut s, "colour", "red", &Vec::new())),
        Some(EditSettingsError::InvalidSetting)
    );
}

#[test]
fn repeating_an_edit_is_the_same_edit() {
    let list = skins(&["x", "y"]);
    for (key, value) in [("skin", "1"), ("storyboard", "off"), ("pp_counter_decimals", "2"), ("beatmap_hitsounds", "no")] {
        let mut once = toggles("a");
        edit_setting(&mut once, key, value, &list);
        let mut twice = toggles("a");
        edit_setting(&mut twice, key, value, &list);
        edit_setting(&mut twice, key, value, &list);
        assert!(same(&once, &twice));
    }
}

#[test]
fn edit_error_messages() {
    assert_eq!(EditSettingsError::InvalidCursorSize.message(), "Cursorsize has to be between 0.1 and 2!");
    assert_eq!(EditSettingsError::InvalidDim.message(), "Dim has to be between 0.0 and 1.0!");
    assert_eq!(EditSettingsError::InvalidMusicVolume.message(), "Music volume has to be between 0 and 100!");
    assert_eq!(EditSettingsError::InvalidHitsoundVolume.message(), "Hitsound volume has to be between 0 and 100!");
    assert_eq!(EditSettingsError::InvalidSetting.message(), "The setting you tried to edit doesn't exist!");
    assert_eq!(EditSettingsError::MissingSkin.message(), "Couldn't find skin!");
}

#[test]
fn prefix_settings_requests() {
    assert!(matches!(settings_request("!!settings", false), SettingsRequest::View));
    assert!(matches!(settings_request("!!settings copy", true), SettingsRequest::Copy));
    assert!(matches!(settings_request("!!settings copy", false), SettingsRequest::CopyWithoutMention));
    assert!(matches!(settings_request("!!settings a b c", false), SettingsRequest::View));
    match settings_request("!!settings dim 0.5", false) {
        SettingsRequest::Edit { key, value } => {
            assert_eq!(key, "dim");
            assert_eq!(value, "0.5");
        }
        _ => panic!("expected an edit"),
    }
    match settings_request("!!settings  copy", false) {
        SettingsRequest::Edit { key, value } => {
            assert_eq!(key, "");
            assert_eq!(value, "copy");
        }
        _ => panic!("expected an edit"),
    }
}

fn texts() -> FractionalTexts {
    FractionalTexts {
        cursor_scale: "1.5".to_string(),
        dim: "80".to_string(),
        music_volume: "50".to_string(),
        hitsound_volume: "70".to_string(),
    }
}

#[test]
fn slash_settings_embed() {
    let mut s = toggles("../Skins/My_Skin");
    s.hit_error_meter_decimals = 2;
    let e = create_settings_embed("mezo", &s, &texts());
    assert_eq!(e.title, "Settings for mezo");
    let got: Vec<(String, String, bool)> = e
        .fields
        .iter()
        .map(|f| (f.name.clone(), f.value.clone(), f.inline))
        .collect();
    let expected = vec![
        ("Skin", "`skin`: My_Skin", false),
        ("Beatmap", "`storyboard`: on\n`video`: off\n`dim`: 80%\n`leaderboard`: on", true),
        ("Audio", "`music volume`: 50%\n`hitsound volume`: 70%\n`beatmap hitsounds`: on", true),
        ("Cursor", "`cursor scale`: 1.5\n`cursor ripples`: off", false),
        ("PP Counter", "`show pp counter`: on\n`pp decimals`: 0", true),
        ("Hit Counter", "`show hit counter`: on\n`show sliderbreaks`: off", true),
        ("Strain Graph", "`show strain graph`: on", false),
        ("Hit Error Meter", "`show hit error meter`: on\n`hit error decimals`: 2", true),
        ("Aim Error Meter", "`show aim error meter`: off\n`aim error UR decimals`: 0", true),
    ];
    let expected: Vec<(String, String, bool)> = expected
        .into_iter()
        .map(|(a, b, c)| (a.to_string(), b.to_string(), c))
        .collect();
    assert_eq!(got, expected);
    assert!(settings_embed("mezo", &toggles(""), &texts()).is_none());
    assert!(settings_embed("mezo", &toggles("a/b"), &texts()).is_some());
}

#[test]
fn prefix_settings_embed() {
    let s = toggles("../Skins/My_Skin");
    let e = settings_description_embed("mezo", &s, &texts());
    assert_eq!(e.title, "Settings for mezo");
    assert_eq!(e.color, SETTINGS_EMBED_COLOR);
    assert_eq!(SETTINGS_EMBED_COLOR, 15785176);
    assert_eq!(
        e.description,
        "**Skin**\n`skin`: ../Skins/My_Skin\n\n\
         **Cursor**\n`cursor size`: 1.5\n`cursor ripple`: off\n\n\
         **Beatmap**\n`storyboard`: on\n`background video`: off\n`dim`: 80\n\n\
         **Audio**\n`music volume`: 50%\n`hitsound volume`: 70%\n`beatmap hitsounds`: on\n\n\
         **PP Counter**\n`pp counter decimals`: 0\n\n\
         **Hit Error Meter**\n`hit error decimals`: 0\n\n\
         **Aim Error Meter**\n`show aim error meter`: off\n`aim error meter ur decimals`: 0\n\n\
         **Hit Counter**\n`show hit counter`: on\n`show sliderbreaks`: off\n\n\
         **Strain Graph**\n`show strain graph`: on"
    );
    assert_eq!(
        e.footer,
        "To edit your settings type !!settings [setting] [value] | The setting name is the same as in the embed, spaces are replaced with '_'"
    );
}

#[test]
fn attachments_must_be_json() {
    assert!(is_json_attachment("settings.json"));
    assert!(is_json_attachment("a.b.json"));
    assert!(is_json_attachment("json"));
    assert!(!is_json_attachment("settings.JSON"));
    assert!(!is_json_attachment("settings.json.txt"));
    assert!(!is_json_attachment("settings"));
    assert_eq!(not_json_text(), "The attached file must be of type .json");
}

fn reply_parts(r: EditReply) -> Result<Option<String>, String> {
    match r {
        EditReply::Settings(c) => Ok(c),
        EditReply::Refused(t) => Err(t),
    }
}

#[test]
fn edit_replies() {
    assert_eq!(
        reply_parts(edit_reply(&ModifyResult::Change(true), true)),
        Ok(Some("Successfully changed settings!".to_string()))
    );
    assert_eq!(
        reply_parts(edit_reply(&ModifyResult::Change(true), false)),
        Err("Failed to save modified settings".to_string())
    );
    assert_eq!(reply_parts(edit_reply(&ModifyResult::Change(false), true)), Ok(None));
    assert_eq!(reply_parts(edit_reply(&ModifyResult::Change(false), false)), Ok(None));
    assert_eq!(
        reply_parts(edit_reply(&ModifyResult::InvalidSkin { max_idx: 12 }, true)),
        Err("Invalid skin index, must be between 1 and 12".to_string())
    );
    assert_eq!(
        reply_parts(edit_reply(&ModifyResult::MissingSkinFileName, true)),
        Err("Something went wrong while modifying the settings".to_string())
    );
}

#[test]
fn an_edit_reports_a_change_exactly_when_the_settings_change() {
    let mut s = toggles("../Skins/a");
    let before = toggles("../Skins/a");
    let mut args = no_options();
    args.skin = Some(1);
    let r = modify_settings(&mut s, &args, skins(&["a", "b"]));
    assert!(matches!(r, ModifyResult::Change(false)));
    assert!(same(&s, &before));
    args.skin = Some(2);
    let r = modify_settings(&mut s, &args, skins(&["a", "b"]));
    assert!(matches!(r, ModifyResult::Change(true)));
    assert!(!same(&s, &before));
    assert_eq!(s.current_skin, "../Skins/b");
}

#[test]
fn skin_option_while_typing_and_once_chosen() {
    assert_eq!(submitted_skin(SkinArgument::Absent), Ok(None));
    assert_eq!(submitted_skin(SkinArgument::Focused("Whi".to_string())), Err("Whi".to_string()));
    assert_eq!(submitted_skin(SkinArgument::Completed("White".to_string())), Ok(Some("White".to_string())));
}

#[test]
fn backslash_skin_names_are_plain_folder_names() {
    let mut s = toggles("../Skins/a");
    let mut args = no_options();
    args.skin = Some(1);
    let r = modify_settings(&mut s, &args, skins(&["x\\y"]));
    assert!(matches!(r, ModifyResult::Change(true)));
    assert_eq!(s.current_skin, "../Skins/x\\y");
    let r = modify_settings(&mut s, &args, skins(&["x\\y"]));
    assert!(matches!(r, ModifyResult::Change(false)));
}
