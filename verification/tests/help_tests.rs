use shishabot::help::{
    category_commands, category_page, command_help, general_help, generate_menus,
    help_basecommand, help_category, help_select_menu, help_subcommand, option_fields,
    parse_subcommand_menu, CommandOptionInfo, CommandSummary, GroupCommand, HelpLinks,
    OptionKind, PrefixCommandGroup, PrefixCommandInfo, SlashCommandInfo,
};

const GROUPS: [Option<PrefixCommandGroup>; 11] = [
    None,
    Some(PrefixCommandGroup::Osu),
    Some(PrefixCommandGroup::Taiko),
    Some(PrefixCommandGroup::Catch),
    Some(PrefixCommandGroup::Mania),
    Some(PrefixCommandGroup::AllModes),
    Some(PrefixCommandGroup::Tracking),
    Some(PrefixCommandGroup::Twitch),
    Some(PrefixCommandGroup::Games),
    Some(PrefixCommandGroup::Danser),
    Some(PrefixCommandGroup::Utility),
];

#[test]
fn category_menu_marks_the_selected_category() {
    for selected in GROUPS {
        let menus = help_select_menu(selected);
        assert_eq!(menus.len(), 1);
        let menu = &menus[0];
        assert_eq!(menu.custom_id, "help_category");
        assert_eq!(menu.min_values, Some(1));
        assert!(!menu.disabled);
        assert_eq!(menu.max_values, Some(1));
        assert_eq!(menu.options.len(), 11);
        let defaults: Vec<_> = menu.options.iter().filter(|o| o.default).collect();
        assert_eq!(defaults.len(), 1);
        assert_eq!(help_category(&defaults[0].value), Some(selected));
    }
    let menu = &help_select_menu(Some(PrefixCommandGroup::Catch))[0];
    assert_eq!(menu.options[0].label, "General");
    assert_eq!(menu.options[0].emoji.as_deref(), Some("🛁"));
    assert_eq!(menu.options[3].label, "Catch");
    assert_eq!(menu.options[3].value, "ctb");
    assert!(menu.options[3].default);
    assert_eq!(menu.options[5].label, "All Modes");
}

#[test]
fn category_values() {
    assert_eq!(help_category("general"), Some(None));
    assert_eq!(help_category("ctb"), Some(Some(PrefixCommandGroup::Catch)));
    assert_eq!(help_category("catch"), None);
    assert_eq!(help_category(""), None);
}

fn opt(kind: OptionKind, name: &str, desc: &str, help: Option<&str>, required: bool) -> CommandOptionInfo {
    CommandOptionInfo {
        kind,
        name: name.to_string(),
        description: desc.to_string(),
        help: help.map(str::to_string),
        required,
        options: Vec::new(),
    }
}

#[test]
fn option_fields_of_value_options() {
    let options = vec![
        opt(OptionKind::SubCommand, "add", "Add", None, false),
        opt(OptionKind::Value, "mode", "Specify a gamemode", None, true),
        opt(OptionKind::Value, "retries", "short", Some("a help text that is longer than thirty-seven bytes"), false),
        opt(OptionKind::Value, "x", "ééééééééééééééééééé", None, false),
    ];
    let fields = option_fields(&options);
    assert_eq!(fields.len(), 3);
    assert_eq!(fields[0].name, "mode (required)");
    assert_eq!(fields[0].value, "Specify a gamemode");
    assert!(fields[0].inline);
    assert_eq!(fields[1].name, "retries");
    assert_eq!(fields[1].value, "a help text that is longer than thirty-seven bytes");
    assert!(!fields[1].inline);
    assert!(!fields[2].inline);
    let exact = vec![opt(OptionKind::Value, "y", &"z".repeat(37), None, false)];
    assert!(option_fields(&exact)[0].inline);
}

#[test]
fn menus_of_the_slash_help() {
    let commands = vec![
        CommandSummary { name: "render".to_string(), description: "Render a replay".to_string() },
        CommandSummary { name: "owner".to_string(), description: "Owner stuff".to_string() },
        CommandSummary { name: "hidden".to_string(), description: String::new() },
    ];
    let none: Vec<CommandOptionInfo> = Vec::new();
    let menus = generate_menus(false, &commands, &none);
    assert_eq!(menus.len(), 1);
    assert_eq!(menus[0].custom_id, "help_basecommand");
    assert_eq!(menus[0].placeholder.as_deref(), Some("Select a base command"));
    let labels: Vec<_> = menus[0].options.iter().map(|o| o.label.as_str()).collect();
    assert_eq!(labels, vec!["render"]);
    let menus = generate_menus(true, &commands, &none);
    let labels: Vec<_> = menus[0].options.iter().map(|o| o.label.as_str()).collect();
    assert_eq!(labels, vec!["render", "owner"]);
    assert_eq!(menus[0].options[1].description.as_deref(), Some("Owner stuff"));

    let subs = vec![
        opt(OptionKind::Value, "user", "A user", None, true),
        opt(OptionKind::SubCommandGroup, "server", "Server things", None, false),
    ];
    let menus = generate_menus(false, &commands, &subs);
    assert_eq!(menus.len(), 2);
    assert_eq!(menus[1].custom_id, "help_subcommand");
    assert_eq!(menus[1].placeholder.as_deref(), Some("Select a subcommand"));
    assert_eq!(menus[1].options.len(), 1);
    assert_eq!(menus[1].options[0].value, "server");
    assert!(parse_subcommand_menu(&vec![opt(OptionKind::Value, "v", "d", None, false)]).is_none());
}

fn info(names: &[&str], usage: Option<&str>, examples: &[&str]) -> PrefixCommandInfo {
    PrefixCommandInfo {
        names: names.iter().map(|s| s.to_string()).collect(),
        desc: "Display help for prefix commands".to_string(),
        help: None,
        usage: usage.map(str::to_string),
        examples: examples.iter().map(|s| s.to_string()).collect(),
        authority: false,
        only_owner: false,
        only_guilds: false,
    }
}

#[test]
fn prefix_command_help() {
    let cmd = info(&["help", "h"], Some("[command]"), &["", "recent", "osg"]);
    let e = command_help(&cmd, "!!");
    assert_eq!(e.title, "help");
    assert_eq!(e.description, "Display help for prefix commands");
    assert!(e.author.is_none());
    assert_eq!(e.footer, "Available in servers and DMs");
    assert_eq!(e.fields.len(), 3);
    assert_eq!(e.fields[0].name, "How to use");
    assert_eq!(e.fields[0].value, "`!!help [command]`");
    assert!(e.fields[0].inline);
    assert_eq!(e.fields[1].name, "Examples");
    assert_eq!(e.fields[1].value, "`!!help `\n`!!help recent`\n`!!help osg`\n");
    assert!(e.fields[1].inline);
    assert_eq!(e.fields[2].name, "Aliases");
    assert_eq!(e.fields[2].value, "`h`");
    assert!(e.fields[2].inline);

    let mut cmd = info(&["prefix", "p", "pre"], None, &["a", &"x".repeat(30)]);
    cmd.authority = true;
    cmd.only_owner = true;
    cmd.help = Some("Longer help".to_string());
    let e = command_help(&cmd, "!!");
    assert_eq!(e.description, "Longer help");
    assert_eq!(e.author.as_deref(), Some("Can only be used by the bot owner"));
    assert_eq!(e.footer, "Only available in servers");
    assert_eq!(e.fields.len(), 3);
    assert_eq!(e.fields[0].name, "Examples");
    assert!(!e.fields[0].inline);
    assert_eq!(e.fields[1].value, "`p`, `pre`");
    assert_eq!(e.fields[2].name, "Requires authority status");
    assert_eq!(e.fields[2].value, "Admin permission or manage channels permission");
    assert!(!e.fields[2].inline);

    let long_usage = info(&["render"], Some("[start-time] [end-time] [more]"), &[]);
    let e = command_help(&long_usage, "!!");
    assert_eq!(e.fields.len(), 1);
    assert!(!e.fields[0].inline);
}

fn gc(name: &str, group: PrefixCommandGroup, authority: bool) -> GroupCommand {
    GroupCommand { name: name.to_string(), desc: format!("{name} desc"), authority, group }
}

#[test]
fn category_page_lists_each_command_once_sorted() {
    let cmds = vec![
        gc("skin", PrefixCommandGroup::Danser, false),
        gc("ping", PrefixCommandGroup::Utility, false),
        gc("queue", PrefixCommandGroup::Danser, false),
        gc("settings", PrefixCommandGroup::Danser, true),
        gc("queue", PrefixCommandGroup::Danser, true),
    ];
    let kept = category_commands(
        vec![
            gc("b", PrefixCommandGroup::Danser, false),
            gc("a", PrefixCommandGroup::Danser, false),
        ],
        PrefixCommandGroup::Danser,
    );
    let names: Vec<_> = kept.iter().map(|c| c.name.as_str()).collect();
    assert_eq!(names, vec!["a", "b"]);
    let (desc, footer) = category_page("🎥", "Danser", cmds, PrefixCommandGroup::Danser);
    assert_eq!(
        desc,
        "🎥 __**Danser**__\n`queue`: queue desc\n`settings`**\\***: settings desc\n`skin`: skin desc\n"
    );
    assert_eq!(footer, "*: Either can't be used in DMs or requires authority status in the server");
}

#[test]
fn general_help_page() {
    let links = HelpLinks {
        website: "https://w".to_string(),
        discord: "https://d".to_string(),
        invite: "https://i".to_string(),
        github: "https://g".to_string(),
    };
    let (desc, fields) = general_help(5, &links, "1,234", "3 days ago");
    assert_eq!(
        desc,
        "<@5> is a discord bot written by [mezo](https://osu.ppy.sh/users/13313647) which allows you render osu! replays and upload them"
    );
    assert_eq!(fields.len(), 6);
    assert_eq!(fields[0].value, "Head over to [shisha.mezo.xyz](https://w) and log in using discord");
    assert_eq!(fields[1].value, "Feel free to join the [discord server](https://d)");
    assert_eq!(fields[2].value, "Try using this [**invite link**](https://i)");
    assert_eq!(fields[3].value, "1,234");
    assert!(fields[3].inline);
    assert_eq!(fields[4].name, "Boot-up");
    assert_eq!(fields[5].value, "The source code can be found over at [Github](https://g)");
}

fn blacklist_command() -> SlashCommandInfo {
    let mut add = opt(OptionKind::SubCommand, "add", "Add a server to the blacklist", None, false);
    add.options = vec![
        opt(OptionKind::Value, "guild_id", "ID of the server you want to blacklist", None, true),
        opt(OptionKind::Value, "reason", "Reason for the blacklist", None, false),
    ];
    let remove = opt(OptionKind::SubCommand, "remove", "Remove a server from the blacklist", None, false);
    let mut server = opt(OptionKind::SubCommandGroup, "server", "Blacklist a server from rendering replays", None, false);
    server.options = vec![add, remove];
    let mut command = opt(OptionKind::SubCommandGroup, "blacklist", "Blacklist a server or user from rendering replays", None, false);
    command.options = vec![server];
    SlashCommandInfo { command, authority: true }
}

#[test]
fn slash_help_pages_follow_the_subcommands() {
    let commands = vec![
        SlashCommandInfo { command: opt(OptionKind::SubCommandGroup, "ping", "Check if the bot is online", Some("Most basic command"), false), authority: false },
        blacklist_command(),
    ];
    let summaries = vec![CommandSummary { name: "ping".to_string(), description: "Check if the bot is online".to_string() }];
    let page = help_basecommand(&commands, "ping", false, &summaries).unwrap();
    assert_eq!(page.title, "ping");
    assert_eq!(page.description, "Most basic command");
    assert!(page.footer.is_none());
    assert!(page.fields.is_empty());
    assert_eq!(page.menus.len(), 1);
    assert!(help_basecommand(&commands, "pong", false, &summaries).is_none());

    let page = help_basecommand(&commands, "blacklist", false, &summaries).unwrap();
    assert_eq!(page.footer.as_deref(), Some("Requires authority status"));
    assert_eq!(page.menus.len(), 2);
    assert_eq!(page.menus[1].options[0].value, "server");

    let page = help_subcommand(&commands, "blacklist", "server", false, &summaries).unwrap();
    assert_eq!(page.title, "blacklist server");
    assert_eq!(page.description, "Blacklist a server from rendering replays");
    assert_eq!(page.menus.len(), 2);
    let subs: Vec<_> = page.menus[1].options.iter().map(|o| o.value.as_str()).collect();
    assert_eq!(subs, vec!["add", "remove"]);

    let page = help_subcommand(&commands, "blacklist server", "add", false, &summaries).unwrap();
    assert_eq!(page.title, "blacklist server add");
    assert_eq!(page.fields.len(), 2);
    assert_eq!(page.fields[0].name, "guild_id (required)");
    assert_eq!(page.menus.len(), 1);
    assert_eq!(page.footer.as_deref(), Some("Requires authority status"));

    assert!(help_subcommand(&commands, "blacklist server", "nope", false, &summaries).is_none());
    assert!(help_subcommand(&commands, "blacklist server add", "guild_id", false, &summaries).is_some());
    assert!(help_subcommand(&commands, "blacklist server add guild_id", "x", false, &summaries).is_none());
    assert!(help_subcommand(&commands, "nothing", "server", false, &summaries).is_none());
}
