use std::collections::HashSet;

use shishabot::guild_setup::{
    add_input_channel, input, output, remove_input_channel, view, GuildSettings, InputAction,
    SetupInput, SetupOutput, SetupReply,
};

fn channels(cs: &[u64]) -> HashSet<u64> {
    cs.iter().copied().collect()
}

fn done(r: SetupReply) -> Option<String> {
    match r {
        SetupReply::Done(c) => Some(c),
        SetupReply::Refused { .. } => None,
    }
}

fn refused(r: SetupReply) -> Option<(String, bool)> {
    match r {
        SetupReply::Done(_) => None,
        SetupReply::Refused { content, ephemeral } => Some((content, ephemeral)),
    }
}

#[test]
fn setup_view_text() {
    assert_eq!(view(None), "Input channels: None\nOutput channel: None");
    let g = GuildSettings { input_channels: channels(&[]), output_channel: Some(3) };
    assert_eq!(view(Some(&g)), "Input channels: None\nOutput channel: <#3>");
    let g = GuildSettings { input_channels: channels(&[1, 2]), output_channel: None };
    let text = view(Some(&g));
    assert!(
        text == "Input channels: <#1>, <#2>\nOutput channel: None"
            || text == "Input channels: <#2>, <#1>\nOutput channel: None",
        "{text}"
    );
    let g = GuildSettings { input_channels: channels(&[7]), output_channel: Some(8) };
    assert_eq!(view(Some(&g)), "Input channels: <#7>\nOutput channel: <#8>");
}

#[test]
fn input_channels_add_and_remove() {
    let mut g = GuildSettings { input_channels: channels(&[1]), output_channel: None };
    let r = input(&mut g, SetupInput { action: InputAction::Add, channel: 2 }, 8);
    assert_eq!(done(r).as_deref(), Some("Successfully added channel <#2>"));
    assert_eq!(g.input_channels, channels(&[1, 2]));
    let r = input(&mut g, SetupInput { action: InputAction::Add, channel: 2 }, 8);
    assert!(done(r).is_some());
    assert_eq!(g.input_channels, channels(&[1, 2]));
    let r = input(&mut g, SetupInput { action: InputAction::Remove, channel: 1 }, 8 | 2);
    assert_eq!(done(r).as_deref(), Some("Successfully removed channel <#1>"));
    assert_eq!(g.input_channels, channels(&[2]));
    let r = input(&mut g, SetupInput { action: InputAction::Remove, channel: 1 }, 8);
    assert_eq!(refused(r), Some(("That channel is not whitelisted".to_string(), false)));
    let r = input(&mut g, SetupInput { action: InputAction::Add, channel: 9 }, 16);
    assert_eq!(
        refused(r),
        Some(("You do not have the required permissions to perform this action!".to_string(), true))
    );
    assert_eq!(g.input_channels, channels(&[2]));
}

#[test]
fn removing_what_was_added_restores_the_channels() {
    let mut g = GuildSettings { input_channels: channels(&[4, 5]), output_channel: Some(1) };
    assert!(add_input_channel(&mut g, 6));
    assert!(!add_input_channel(&mut g, 6));
    assert!(remove_input_channel(&mut g, 6));
    assert_eq!(g.input_channels, channels(&[4, 5]));
    assert!(!remove_input_channel(&mut g, 6));
    assert_eq!(g.output_channel, Some(1));
}

#[test]
fn output_channel() {
    let mut g = GuildSettings { input_channels: channels(&[4]), output_channel: None };
    let r = output(&mut g, SetupOutput { channel: 7 }, 8);
    assert_eq!(done(r).as_deref(), Some("Successfully specified <#7> as output"));
    assert_eq!(g.output_channel, Some(7));
    let r = output(&mut g, SetupOutput { channel: 9 }, 0);
    assert!(refused(r).unwrap().1);
    assert_eq!(g.output_channel, Some(7));
    assert_eq!(g.input_channels, channels(&[4]));
}
