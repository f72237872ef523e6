use std::collections::HashMap;

use shishabot::server::{
    add_prefixes, command_args, parse_channel, prefix_command, prefix_command_text, remove_prefixes, setup_command, setup_message, Server,
    SetupMessage, SetupOutcome,
};

fn strings(v: &[&str]) -> Vec<String> {
    v.iter().map(|s| s.to_string()).collect()
}

#[test]
fn adding_prefixes_keeps_them_distinct() {
    let mut ps = strings(&["!!"]);
    add_prefixes(&mut ps, &strings(&["<", "!!", "<", ">"]));
    assert_eq!(ps, strings(&["!!", "<", ">"]));
}

#[test]
fn removing_prefixes_drops_every_copy() {
    let mut ps = strings(&["!!", "<", ">"]);
    remove_prefixes(&mut ps, &strings(&["<", "?"]));
    assert_eq!(ps, strings(&["!!", ">"]));
    let mut ps = strings(&["a"]);
    add_prefixes(&mut ps, &strings(&["b"]));
    remove_prefixes(&mut ps, &strings(&["b"]));
    assert_eq!(ps, strings(&["a"]));
}

#[test]
fn prefix_command_adds_lists_and_removes() {
    let mut servers: HashMap<u64, Server> = HashMap::new();
    let r = prefix_command(&mut servers, 7, &Vec::new(), "!!");
    assert_eq!(
        r.content,
        "There are no configured prefixes for this server so only the default prefix `!!` works.\nUse `add` or `remove` as first argument to this command to adjust prefixes."
    );
    assert!(r.as_embed);
    assert!(!r.save);

    let r = prefix_command(&mut servers, 7, &strings(&["add", "<", ">"]), "!!");
    assert_eq!(r.content, "Successfully added prefixes.\nCurrent prefixes for this server: `<`, `>`");
    assert!(r.save);
    assert_eq!(servers[&7].prefixes, strings(&["<", ">"]));

    let r = prefix_command(&mut servers, 7, &Vec::new(), "!!");
    assert_eq!(r.content, "Current prefixes for this server: `<`, `>`");

    let r = prefix_command(&mut servers, 7, &strings(&["r", "<", ">"]), "!!");
    assert_eq!(
        r.content,
        "Successfully removed prefixes.\nThere are no configured prefixes for this server so only the default prefix `!!` works."
    );
    assert!(r.save);

    let r = prefix_command(&mut servers, 7, &strings(&["remove", "x"]), "!!");
    assert!(!r.save);

    let r = prefix_command(&mut servers, 7, &strings(&["list"]), "!!");
    assert!(!r.as_embed);
    assert_eq!(
        r.content,
        "Either don't provide any arguments to list all current prefixes or use `add` or `remove` as first argument to modify the server prefixes."
    );
}

#[test]
fn channels_read_from_mentions_and_ids() {
    assert_eq!(parse_channel("<#123>"), Some(123));
    assert_eq!(parse_channel("456"), Some(456));
    assert_eq!(parse_channel("<#>"), None);
    assert_eq!(parse_channel("<@123>"), None);
    assert_eq!(parse_channel("abc"), None);
}

#[test]
fn setup_takes_the_first_two_channels() {
    let mut servers: HashMap<u64, Server> = HashMap::new();
    assert!(matches!(setup_command(&mut servers, 1, "!!setup <#5>"), SetupOutcome::NeedTwoChannels));
    assert!(matches!(setup_command(&mut servers, 1, "!!setup <#5> x <#6> <#7>"), SetupOutcome::Updated));
    assert_eq!(servers[&1].input_channel, 5);
    assert_eq!(servers[&1].output_channel, 6);
    assert!(matches!(
        setup_command(&mut servers, 1, "!!setup"),
        SetupOutcome::ShowCurrent { input: 5, output: 6 }
    ));
}

#[test]
fn setup_answers() {
    match setup_message(&SetupOutcome::Updated, None) {
        SetupMessage::Reply(t) => assert_eq!(t, "Successfully changed settings!"),
        _ => panic!("expected a reply"),
    }
    match setup_message(&SetupOutcome::NeedTwoChannels, Some("x")) {
        SetupMessage::Reply(t) => assert_eq!(t, "You need to mention 2 channels!"),
        _ => panic!("expected a reply"),
    }
    assert!(matches!(setup_message(&SetupOutcome::Nothing, None), SetupMessage::Silent));
    match setup_message(&SetupOutcome::ShowCurrent { input: 5, output: 6 }, Some("Osu")) {
        SetupMessage::Embed { title, description, footer, color } => {
            assert_eq!(title, "Current channel setup for Osu");
            assert_eq!(description, "**Input Channel:** <#5>\n**Output Channel:** <#6>");
            assert_eq!(footer, "Use !!setup [input-channel] [output-channel] to edit this");
            assert_eq!(color, 15785176);
        }
        _ => panic!("expected an embed"),
    }
    match setup_message(&SetupOutcome::ShowCurrent { input: 1, output: 2 }, None) {
        SetupMessage::Embed { title, .. } => assert_eq!(title, "Current channel setup"),
        _ => panic!("expected an embed"),
    }
}

#[test]
fn command_text_is_split_with_quotes() {
    assert_eq!(command_args("add \"a b\" c"), strings(&["add", "a b", "c"]));
    assert_eq!(command_args("  x  "), strings(&["x"]));
    assert!(command_args("").is_empty());
    let mut servers: HashMap<u64, Server> = HashMap::new();
    let reply = prefix_command_text(&mut servers, 7, "add \"! \" ?", "!!");
    assert!(reply.save);
    assert_eq!(servers[&7].prefixes, strings(&["! ", "?"]));
}
