use shishabot::commands::{
    start_time_points, start_time_texts, copy_without_mention_text, edit_failed_text, edited_setting_text, prefix_copy_messages,
    settings_copied_reply, settings_copy_check, settings_default_check, settings_default_reply,
    blacklisted_text, copy_refusal, default_cancelled, guild_id_arg, invite_footer_text,
    latency_text, no_settings_text, pong_text, skin_added_text, skin_removed_reply,
    whitelist_reply, Reply,
    SettingsConfirm, SettingsDefault,
};

fn view(r: Reply) -> (bool, String) {
    match r {
        Reply::Done(c) => (true, c),
        Reply::Refused(c) => (false, c),
    }
}

#[test]
fn blacklist_replies() {
    assert_eq!(guild_id_arg("123"), Ok(123));
    assert_eq!(guild_id_arg("12a"), Err("Guild ID is invalid!".to_string()));
    assert_eq!(blacklisted_text("123"), "Server `123` successfully blacklisted");
    assert_eq!(view(whitelist_reply("9", true)), (true, "Server `9` successfully whitelisted".to_string()));
    assert_eq!(view(whitelist_reply("9", false)), (false, "Server `9` not found".to_string()));
}

#[test]
fn settings_file_replies() {
    assert_eq!(
        default_cancelled(SettingsDefault { confirm: SettingsConfirm::Cancel }).as_deref(),
        Some("Restoring default settings was cancelled.\nBe sure to confirm if you want to overwrite your current settings with default values.")
    );
    assert!(default_cancelled(SettingsDefault { confirm: SettingsConfirm::Confirm }).is_none());
    assert_eq!(copy_refusal(3, 3).as_deref(), Some(":clown:"));
    assert!(copy_refusal(3, 4).is_none());
    assert_eq!(no_settings_text(77), "User <@77> has no specified settings yet");
}

#[test]
fn skin_remove_replies() {
    assert_eq!(view(skin_removed_reply(&Ok("My_Skin".to_string()))), (true, "Successfully deleted skin `My_Skin`".to_string()));
    assert_eq!(view(skin_removed_reply(&Err(12))), (false, "Invalid skin index, must be between 1 and 12".to_string()));
    assert_eq!(skin_added_text(4), "Added skin to list at index `4`");
}

#[test]
fn small_replies() {
    assert_eq!(invite_footer_text("!!"), "The initial prefix will be !!");
    assert_eq!(pong_text(42), ":ping_pong: Pong! (42ms)");
    assert_eq!(latency_text(7), "7ms");
}

#[test]
fn settings_copy_replies() {
    assert_eq!(settings_copy_check(1, 1, true).map(view), Some((false, ":clown:".to_string())));
    assert_eq!(
        settings_copy_check(1, 2, false).map(view),
        Some((false, "That user has not configured their settings yet".to_string()))
    );
    assert!(settings_copy_check(1, 2, true).is_none());
    assert_eq!(view(settings_copied_reply(true)), (true, "Successfully copied settings!".to_string()));
    assert_eq!(view(settings_copied_reply(false)), (false, "Failed to copy the settings file".to_string()));
}

#[test]
fn settings_default_replies() {
    let cancel = SettingsDefault { confirm: SettingsConfirm::Cancel };
    let confirm = SettingsDefault { confirm: SettingsConfirm::Confirm };
    let (ok, text) = settings_default_check(cancel, true).map(view).unwrap();
    assert!(ok);
    assert!(text.starts_with("Restoring default settings was cancelled."));
    assert_eq!(
        settings_default_check(confirm, false).map(view),
        Some((false, "Could not find default settings".to_string()))
    );
    assert!(settings_default_check(confirm, true).is_none());
    assert_eq!(
        view(settings_default_reply(true)),
        (true, "Successfully restored default settings!".to_string())
    );
    assert_eq!(view(settings_default_reply(false)), (false, "Failed to set default values".to_string()));
}

#[test]
fn prefix_settings_copy_replies() {
    assert_eq!(copy_without_mention_text(), "You need to mention someone in order to steal their settings!");
    assert_eq!(prefix_copy_messages(true, true), vec!["Copied settings!".to_string()]);
    assert_eq!(
        prefix_copy_messages(false, true),
        vec![
            "Oops! I couldn't find your file! Please type !!settings to resolve this issue.".to_string(),
            "Copied settings!".to_string()
        ]
    );
    assert!(prefix_copy_messages(true, false).is_empty());
    assert_eq!(edited_setting_text(), "Edited setting successfully!");
    assert_eq!(edit_failed_text(), "something went wrong, blame mezo");
}

#[test]
fn start_time_points_of_a_message() {
    assert_eq!(start_time_texts("!!start 0:30 1:30 x"), (Some("0:30".to_string()), Some("1:30".to_string())));
    assert_eq!(start_time_texts("!!start 20"), (Some("20".to_string()), None));
    assert_eq!(start_time_texts("!!start"), (None, None));
    assert_eq!(start_time_points::<u32>(None, None), Err("You must enter the `[start-time]`!".to_string()));
    assert_eq!(start_time_points(Some(Ok(30u32)), Some(Ok(90))), Ok((30, Some(90))));
    assert_eq!(start_time_points(Some(Ok(20u32)), None), Ok((20, None)));
    assert_eq!(start_time_points::<u32>(Some(Err("bad start".to_string())), Some(Err("bad end".to_string()))), Err("bad start".to_string()));
    assert_eq!(start_time_points(Some(Ok(1u32)), Some(Err("bad end".to_string()))), Err("bad end".to_string()));
    assert_eq!(start_time_points::<u32>(None, Some(Err("bad end".to_string()))), Err("bad end".to_string()));
}
