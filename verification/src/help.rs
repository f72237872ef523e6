//! The help commands: the category menu and pages of the prefix help, the
//! help of one prefix command, and the menus and pages of the slash help.

use vstd::prelude::*;

use crate::embed::{field, fields_view, EmbedFieldData};
use crate::skins::seq_lt;
use crate::text::{
    chars_of, opt_view, push_str, split_char, split_pieces, str_eq, string_of, views,
};

verus! {

/// A group of prefix commands.
#[derive(Clone, Copy, Debug, PartialEq, Eq, Structural)]
pub enum PrefixCommandGroup {
    Osu,
    Taiko,
    Catch,
    Mania,
    AllModes,
    Tracking,
    Twitch,
    Games,
    Danser,
    Utility,
}

/// One choice of a select menu.
pub struct MenuOption {
    pub label: String,
    pub value: String,
    pub description: Option<String>,
    /// A unicode emoji shown beside the label.
    pub emoji: Option<String>,
    /// Whether the choice is selected when the menu is shown.
    pub default: bool,
}

/// A select menu, shown in an action row of its own.
pub struct SelectMenuData {
    pub custom_id: String,
    /// Whether the menu is greyed out.
    pub disabled: bool,
    pub placeholder: Option<String>,
    pub min_values: Option<u8>,
    pub max_values: Option<u8>,
    pub options: Vec<MenuOption>,
}

/// The text view of a menu option: label, value, description, emoji, default.
pub open spec fn option_view(o: MenuOption) -> (Seq<char>, Seq<char>, Option<Seq<char>>, Option<Seq<char>>, bool) {
    (
        o.label@,
        o.value@,
        opt_view(o.description),
        opt_view(o.emoji),
        o.default,
    )
}

/// The text views of menu options.
pub open spec fn options_view(os: Seq<MenuOption>) -> Seq<(Seq<char>, Seq<char>, Option<Seq<char>>, Option<Seq<char>>, bool)> {
    os.map_values(|o: MenuOption| option_view(o))
}

// ---------------------------------------------------------------------------
// The category menu of the prefix help.

/// The help categories in menu order: `None` is the general page.
pub open spec fn category_at(i: int) -> Option<PrefixCommandGroup> {
    if i == 0 {
        None
    } else if i == 1 {
        Some(PrefixCommandGroup::Osu)
    } else if i == 2 {
        Some(PrefixCommandGroup::Taiko)
    } else if i == 3 {
        Some(PrefixCommandGroup::Catch)
    } else if i == 4 {
        Some(PrefixCommandGroup::Mania)
    } else if i == 5 {
        Some(PrefixCommandGroup::AllModes)
    } else if i == 6 {
        Some(PrefixCommandGroup::Tracking)
    } else if i == 7 {
        Some(PrefixCommandGroup::Twitch)
    } else if i == 8 {
        Some(PrefixCommandGroup::Games)
    } else if i == 9 {
        Some(PrefixCommandGroup::Danser)
    } else {
        Some(PrefixCommandGroup::Utility)
    }
}

/// The label of the `i`-th category.
pub open spec fn category_label(i: int) -> Seq<char> {
    if i == 0 {
        "General"@
    } else if i == 1 {
        "osu!"@
    } else if i == 2 {
        "Taiko"@
    } else if i == 3 {
        "Catch"@
    } else if i == 4 {
        "Mania"@
    } else if i == 5 {
        "All Modes"@
    } else if i == 6 {
        "Tracking"@
    } else if i == 7 {
        "Twitch"@
    } else if i == 8 {
        "Games"@
    } else if i == 9 {
        "Danser"@
    } else {
        "Utility"@
    }
}

/// The menu value of the `i`-th category.
pub open spec fn category_value(i: int) -> Seq<char> {
    if i == 0 {
        "general"@
    } else if i == 1 {
        "osu"@
    } else if i == 2 {
        "taiko"@
    } else if i == 3 {
        "ctb"@
    } else if i == 4 {
        "mania"@
    } else if i == 5 {
        "all_modes"@
    } else if i == 6 {
        "tracking"@
    } else if i == 7 {
        "twitch"@
    } else if i == 8 {
        "games"@
    } else if i == 9 {
        "danser"@
    } else {
        "utility"@
    }
}

/// The number of help categories.
pub open spec fn category_count() -> int {
    11
}

/// The category that a menu value selects: `Some(None)` for the general
/// page, `None` for a value that is no category.
pub open spec fn category_of_value(value: Seq<char>) -> Option<Option<PrefixCommandGroup>> {
    if value == "general"@ {
        Some(None)
    } else if value == "osu"@ {
        Some(Some(PrefixCommandGroup::Osu))
    } else if value == "taiko"@ {
        Some(Some(PrefixCommandGroup::Taiko))
    } else if value == "ctb"@ {
        Some(Some(PrefixCommandGroup::Catch))
    } else if value == "mania"@ {
        Some(Some(PrefixCommandGroup::Mania))
    } else if value == "all_modes"@ {
        Some(Some(PrefixCommandGroup::AllModes))
    } else if value == "tracking"@ {
        Some(Some(PrefixCommandGroup::Tracking))
    } else if value == "twitch"@ {
        Some(Some(PrefixCommandGroup::Twitch))
    } else if value == "games"@ {
        Some(Some(PrefixCommandGroup::Games))
    } else if value == "danser"@ {
        Some(Some(PrefixCommandGroup::Danser))
    } else if value == "utility"@ {
        Some(Some(PrefixCommandGroup::Utility))
    } else {
        None
    }
}

/// The category selected in the help menu (`Some(None)`: the general page;
/// `None`: a value the menu does not offer).
pub fn help_category(value: &str) -> (r: Option<Option<PrefixCommandGroup>>)
    ensures
        r == category_of_value(value@),
{
    if str_eq(value, "general") {
        Some(None)
    } else if str_eq(value, "osu") {
        Some(Some(PrefixCommandGroup::Osu))
    } else if str_eq(value, "taiko") {
        Some(Some(PrefixCommandGroup::Taiko))
    } else if str_eq(value, "ctb") {
        Some(Some(PrefixCommandGroup::Catch))
    } else if str_eq(value, "mania") {
        Some(Some(PrefixCommandGroup::Mania))
    } else if str_eq(value, "all_modes") {
        Some(Some(PrefixCommandGroup::AllModes))
    } else if str_eq(value, "tracking") {
        Some(Some(PrefixCommandGroup::Tracking))
    } else if str_eq(value, "twitch") {
        Some(Some(PrefixCommandGroup::Twitch))
    } else if str_eq(value, "games") {
        Some(Some(PrefixCommandGroup::Games))
    } else if str_eq(value, "danser") {
        Some(Some(PrefixCommandGroup::Danser))
    } else if str_eq(value, "utility") {
        Some(Some(PrefixCommandGroup::Utility))
    } else {
        None
    }
}

/// The options of the category menu with `selected` marked as the default.
pub open spec fn category_options_spec(selected: Option<PrefixCommandGroup>) -> Seq<
    (Seq<char>, Seq<char>, Option<Seq<char>>, Option<Seq<char>>, bool),
> {
    Seq::new(
        category_count() as nat,
        |i: int|
            (
                category_label(i),
                category_value(i),
                None,
                if i == 0 {
                    Some("🛁"@)
                } else {
                    None
                },
                category_at(i) == selected,
            ),
    )
}

fn category_option(label: &str, value: &str, emoji: Option<&str>, default: bool) -> (r: MenuOption)
    ensures
        option_view(r) == (
            label@,
            value@,
            None::<Seq<char>>,
            match emoji {
                Some(e) => Some(e@),
                None => None,
            },
            default,
        ),
{
    MenuOption {
        label: string_of(label),
        value: string_of(value),
        description: None,
        emoji: match emoji {
            Some(e) => Some(string_of(e)),
            None => None,
        },
        default,
    }
}

fn is_group(selected: Option<PrefixCommandGroup>, g: PrefixCommandGroup) -> (r: bool)
    ensures
        r == (selected == Some(g)),
{
    match selected {
        Some(s) => s == g,
        None => false,
    }
}

/// The category menu of the prefix help, with `default` (`None`: the
/// general page) selected.
pub fn help_select_menu(default: Option<PrefixCommandGroup>) -> (r: Vec<SelectMenuData>)
    ensures
        r@.len() == 1,
        r@[0].custom_id@ == "help_category"@,
        !r@[0].disabled,
        r@[0].placeholder is None,
        r@[0].min_values == Some(1u8),
        r@[0].max_values == Some(1u8),
        options_view(r@[0].options@) == category_options_spec(default),
{
    let mut options: Vec<MenuOption> = Vec::new();
    options.push(category_option("General", "general", Some("🛁"), default.is_none()));
    options.push(category_option("osu!", "osu", None, is_group(default, PrefixCommandGroup::Osu)));
    options.push(category_option("Taiko", "taiko", None, is_group(default, PrefixCommandGroup::Taiko)));
    options.push(category_option("Catch", "ctb", None, is_group(default, PrefixCommandGroup::Catch)));
    options.push(category_option("Mania", "mania", None, is_group(default, PrefixCommandGroup::Mania)));
    options.push(
        category_option("All Modes", "all_modes", None, is_group(default, PrefixCommandGroup::AllModes)),
    );
    options.push(
        category_option("Tracking", "tracking", None, is_group(default, PrefixCommandGroup::Tracking)),
    );
    options.push(category_option("Twitch", "twitch", None, is_group(default, PrefixCommandGroup::Twitch)));
    options.push(category_option("Games", "games", None, is_group(default, PrefixCommandGroup::Games)));
    options.push(category_option("Danser", "danser", None, is_group(default, PrefixCommandGroup::Danser)));
    options.push(
        category_option("Utility", "utility", None, is_group(default, PrefixCommandGroup::Utility)),
    );
    assert(options_view(options@) =~= category_options_spec(default));
    let menu = SelectMenuData {
        custom_id: string_of("help_category"),
        disabled: false,
        placeholder: None,
        min_values: Some(1),
        max_values: Some(1),
        options,
    };
    let mut r: Vec<SelectMenuData> = Vec::new();
    r.push(menu);
    r
}

proof fn lemma_category_value(i: int)
    requires
        0 <= i < category_count(),
    ensures
        category_of_value(category_value(i)) == Some(category_at(i)),
{
    reveal_strlit("general");
    reveal_strlit("osu");
    reveal_strlit("taiko");
    reveal_strlit("ctb");
    reveal_strlit("mania");
    reveal_strlit("all_modes");
    reveal_strlit("tracking");
    reveal_strlit("twitch");
    reveal_strlit("games");
    reveal_strlit("danser");
    reveal_strlit("utility");
    let v = category_value(i);
    if i != 0 {
        assert(v != "general"@) by {
            assert(v.len() != 7 || v[0] != 'g');
        }
    }
    if i != 1 {
        assert(v != "osu"@) by {
            assert(v.len() != 3 || v[0] != 'o');
        }
    }
    if i != 2 {
        assert(v != "taiko"@) by {
            assert(v.len() != 5 || v[0] != 't');
        }
    }
    if i != 3 {
        assert(v != "ctb"@) by {
            assert(v.len() != 3 || v[0] != 'c');
        }
    }
    if i != 4 {
        assert(v != "mania"@) by {
            assert(v.len() != 5 || v[0] != 'm');
        }
    }
    if i != 5 {
        assert(v != "all_modes"@) by {
            assert(v.len() != 9 || v[0] != 'a');
        }
    }
    if i != 6 {
        assert(v != "tracking"@) by {
            assert(v.len() != 8 || v[0] != 't');
        }
    }
    if i != 7 {
        assert(v != "twitch"@) by {
            assert(v.len() != 6 || v[0] != 't');
        }
    }
    if i != 8 {
        assert(v != "games"@) by {
            assert(v.len() != 5 || v[0] != 'g');
        }
    }
    if i != 9 {
        assert(v != "danser"@) by {
            assert(v.len() != 6 || v[0] != 'd');
        }
    }
}

/// The category menu marks exactly the selected category as its default,
/// and that option's value selects the same category again.
pub proof fn law_help_menu_selection(selected: Option<PrefixCommandGroup>)
    ensures
        exists|i: int|
            #![trigger category_options_spec(selected)[i]]
            0 <= i < category_count() && category_options_spec(selected)[i].4 && category_of_value(
                category_options_spec(selected)[i].1,
            ) == Some(selected) && forall|j: int|
                0 <= j < category_count() && j != i ==> !(#[trigger] category_options_spec(selected)[j]).4,
{
    let i: int = match selected {
        None => 0,
        Some(PrefixCommandGroup::Osu) => 1,
        Some(PrefixCommandGroup::Taiko) => 2,
        Some(PrefixCommandGroup::Catch) => 3,
        Some(PrefixCommandGroup::Mania) => 4,
        Some(PrefixCommandGroup::AllModes) => 5,
        Some(PrefixCommandGroup::Tracking) => 6,
        Some(PrefixCommandGroup::Twitch) => 7,
        Some(PrefixCommandGroup::Games) => 8,
        Some(PrefixCommandGroup::Danser) => 9,
        Some(PrefixCommandGroup::Utility) => 10,
    };
    lemma_category_value(i);
    assert(category_options_spec(selected)[i].4);
    assert(category_of_value(category_options_spec(selected)[i].1) == Some(selected));
}

// ---------------------------------------------------------------------------
// The options of a slash command, as the slash help shows them.

/// What kind of option a command option is.
#[derive(Clone, Copy, Debug, PartialEq, Eq, Structural)]
pub enum OptionKind {
    SubCommand,
    SubCommandGroup,
    /// An option that takes a value.
    Value,
}

/// A command option as the help reads it.
pub struct CommandOptionInfo {
    pub kind: OptionKind,
    pub name: String,
    pub description: String,
    /// A longer help text, shown in place of the description when present.
    pub help: Option<String>,
    /// Whether a value option must be given.
    pub required: bool,
    /// The options of a subcommand or group.
    pub options: Vec<CommandOptionInfo>,
}

/// The embed field of a value option: its name (marked when required) and
/// its help or description, inline when that text is at most 37 bytes.
pub open spec fn option_field_spec(o: CommandOptionInfo) -> (Seq<char>, Seq<char>, bool) {
    let name = if o.required {
        o.name@ + " (required)"@
    } else {
        o.name@
    };
    let value = match o.help {
        Some(h) => h@,
        None => o.description@,
    };
    (name, value, vstd::utf8::encode_utf8(value).len() <= 37)
}

/// The embed fields of the value options among `os`, in order.
pub open spec fn option_fields_spec(os: Seq<CommandOptionInfo>) -> Seq<(Seq<char>, Seq<char>, bool)>
    decreases os.len(),
{
    if os.len() == 0 {
        Seq::empty()
    } else {
        let rest = option_fields_spec(os.drop_last());
        if os.last().kind == OptionKind::Value {
            rest.push(option_field_spec(os.last()))
        } else {
            rest
        }
    }
}

fn option_field(o: &CommandOptionInfo) -> (r: EmbedFieldData)
    requires
        o.kind == OptionKind::Value,
    ensures
        (r.name@, r.value@, r.inline) == option_field_spec(*o),
{
    let mut name = string_of(o.name.as_str());
    if o.required {
        push_str(&mut name, " (required)");
    }
    let value = match &o.help {
        Some(h) => string_of(h.as_str()),
        None => string_of(o.description.as_str()),
    };
    let byte_len = value.as_str().as_bytes().len();
    field(name, value, byte_len <= 37)
}

/// The embed fields of a command's value options (subcommands and groups
/// get menus instead).
pub fn option_fields(children: &Vec<CommandOptionInfo>) -> (r: Vec<EmbedFieldData>)
    ensures
        fields_view(r@) == option_fields_spec(children@),
{
    let mut out: Vec<EmbedFieldData> = Vec::new();
    let n = children.len();
    for i in 0..n
        invariant
            n == children@.len(),
            fields_view(out@) == option_fields_spec(children@.subrange(0, i as int)),
    {
        let ghost pre = children@.subrange(0, i as int);
        let ghost next = children@.subrange(0, i + 1);
        assert(next.drop_last() =~= pre);
        if children[i].kind == OptionKind::Value {
            let f = option_field(&children[i]);
            out.push(f);
        }
        assert(fields_view(out@) =~= option_fields_spec(next));
    }
    assert(children@.subrange(0, n as int) =~= children@);
    out
}

/// The subcommand choices among a command's options: each subcommand or
/// group by its name, with its description.
pub open spec fn subcommand_options_spec(os: Seq<CommandOptionInfo>) -> Seq<
    (Seq<char>, Seq<char>, Option<Seq<char>>, Option<Seq<char>>, bool),
>
    decreases os.len(),
{
    if os.len() == 0 {
        Seq::empty()
    } else {
        let rest = subcommand_options_spec(os.drop_last());
        let o = os.last();
        if o.kind == OptionKind::Value {
            rest
        } else {
            rest.push((o.name@, o.name@, Some(o.description@), None, false))
        }
    }
}

/// The subcommand menu of the slash help: `None` when the command has no
/// subcommands or groups.
pub fn parse_subcommand_menu(options: &Vec<CommandOptionInfo>) -> (r: Option<SelectMenuData>)
    ensures
        match r {
            None => subcommand_options_spec(options@).len() == 0,
            Some(m) => {
                &&& subcommand_options_spec(options@).len() > 0
                &&& m.custom_id@ == "help_subcommand"@
                &&& !m.disabled
                &&& m.placeholder matches Some(p) && p@ == "Select a subcommand"@
                &&& m.min_values is None
                &&& m.max_values is None
                &&& options_view(m.options@) == subcommand_options_spec(options@)
            },
        },
{
    let mut out: Vec<MenuOption> = Vec::new();
    let n = options.len();
    for i in 0..n
        invariant
            n == options@.len(),
            options_view(out@) == subcommand_options_spec(options@.subrange(0, i as int)),
    {
        let ghost pre = options@.subrange(0, i as int);
        let ghost next = options@.subrange(0, i + 1);
        assert(next.drop_last() =~= pre);
        let o = &options[i];
        if o.kind != OptionKind::Value {
            out.push(
                MenuOption {
                    label: string_of(o.name.as_str()),
                    value: string_of(o.name.as_str()),
                    description: Some(string_of(o.description.as_str())),
                    emoji: None,
                    default: false,
                },
            );
        }
        assert(options_view(out@) =~= subcommand_options_spec(next));
    }
    assert(options@.subrange(0, n as int) =~= options@);
    if out.len() == 0 {
        return None;
    }
    Some(
        SelectMenuData {
            custom_id: string_of("help_subcommand"),
            disabled: false,
            placeholder: Some(string_of("Select a subcommand")),
            min_values: None,
            max_values: None,
            options: out,
        },
    )
}

/// A slash command as the base menu lists it.
pub struct CommandSummary {
    pub name: String,
    pub description: String,
}

/// Whether the base menu lists a command: it has a description, and the
/// owner command only for owners.
pub open spec fn listed(c: CommandSummary, is_owner: bool) -> bool {
    c.description@.len() > 0 && !(c.name@ == "owner"@ && !is_owner)
}

/// The base menu choices: each listed command by its name, with its
/// description.
pub open spec fn base_options_spec(cs: Seq<CommandSummary>, is_owner: bool) -> Seq<
    (Seq<char>, Seq<char>, Option<Seq<char>>, Option<Seq<char>>, bool),
>
    decreases cs.len(),
{
    if cs.len() == 0 {
        Seq::empty()
    } else {
        let rest = base_options_spec(cs.drop_last(), is_owner);
        let c = cs.last();
        if listed(c, is_owner) {
            rest.push((c.name@, c.name@, Some(c.description@), None, false))
        } else {
            rest
        }
    }
}

/// The menus of the slash help: the base command menu for a user (an owner
/// of the bot when `is_owner`), then the subcommand menu of the shown
/// command's `options` when it has subcommands.
pub fn generate_menus(is_owner: bool, commands: &Vec<CommandSummary>, options: &Vec<CommandOptionInfo>) -> (r:
    Vec<SelectMenuData>)
    ensures
        r@.len() == (if subcommand_options_spec(options@).len() > 0 {
            2int
        } else {
            1int
        }),
        r@[0].custom_id@ == "help_basecommand"@,
        !r@[0].disabled,
        (r@[0].placeholder matches Some(p) && p@ == "Select a base command"@),
        r@[0].min_values is None && r@[0].max_values is None,
        options_view(r@[0].options@) == base_options_spec(commands@, is_owner),
        r@.len() == 2 ==> r@[1].custom_id@ == "help_subcommand"@ && !r@[1].disabled && (
        r@[1].placeholder matches Some(p) && p@ == "Select a subcommand"@) && r@[1].min_values is None
            && r@[1].max_values is None && options_view(r@[1].options@) == subcommand_options_spec(
            options@),
{
    let mut base: Vec<MenuOption> = Vec::new();
    let n = commands.len();
    for i in 0..n
        invariant
            n == commands@.len(),
            options_view(base@) == base_options_spec(commands@.subrange(0, i as int), is_owner),
    {
        let ghost pre = commands@.subrange(0, i as int);
        let ghost next = commands@.subrange(0, i + 1);
        assert(next.drop_last() =~= pre);
        let c = &commands[i];
        let skip = c.description.as_str().is_empty() || (str_eq(c.name.as_str(), "owner") && !is_owner);
        if !skip {
            base.push(
                MenuOption {
                    label: string_of(c.name.as_str()),
                    value: string_of(c.name.as_str()),
                    description: Some(string_of(c.description.as_str())),
                    emoji: None,
                    default: false,
                },
            );
        }
        assert(options_view(base@) =~= base_options_spec(next, is_owner));
    }
    assert(commands@.subrange(0, n as int) =~= commands@);
    let base_menu = SelectMenuData {
        custom_id: string_of("help_basecommand"),
        disabled: false,
        placeholder: Some(string_of("Select a base command")),
        min_values: None,
        max_values: None,
        options: base,
    };
    let mut r: Vec<SelectMenuData> = Vec::new();
    r.push(base_menu);
    match parse_subcommand_menu(options) {
        Some(sub) => r.push(sub),
        None => {},
    }
    r
}

// ---------------------------------------------------------------------------
// Help for one prefix command.

/// A prefix command as its help shows it.
pub struct PrefixCommandInfo {
    /// The command's name, then its aliases.
    pub names: Vec<String>,
    pub desc: String,
    /// A longer help text, shown in place of `desc` when present.
    pub help: Option<String>,
    pub usage: Option<String>,
    pub examples: Vec<String>,
    /// Whether the command requires authority status.
    pub authority: bool,
    pub only_owner: bool,
    pub only_guilds: bool,
}

/// An embed of the help commands.
pub struct HelpEmbed {
    pub title: String,
    pub description: String,
    /// The author line, when there is one.
    pub author: Option<String>,
    pub footer: String,
    pub fields: Vec<EmbedFieldData>,
}

/// A command line as the help writes it: `` `prefix name rest` ``.
pub open spec fn command_line(prefix: Seq<char>, name: Seq<char>, rest: Seq<char>) -> Seq<char> {
    "`"@ + prefix + name + " "@ + rest + "`"@
}

/// The usage field's text length in characters, 0 without usage.
pub open spec fn usage_len(c: PrefixCommandInfo, prefix: Seq<char>) -> int {
    match c.usage {
        Some(u) => command_line(prefix, c.names@[0]@, u@).len() as int,
        None => 0,
    }
}

/// The examples, one command line each, each followed by a newline.
pub open spec fn example_lines(prefix: Seq<char>, name: Seq<char>, es: Seq<Seq<char>>) -> Seq<char>
    decreases es.len(),
{
    if es.len() == 0 {
        Seq::empty()
    } else {
        example_lines(prefix, name, es.drop_last()) + command_line(prefix, name, es.last()) + "\n"@
    }
}

/// The largest `cmd_len` plus example length among `es`, 0 when empty.
pub open spec fn max_example_len(cmd_len: int, es: Seq<Seq<char>>) -> int
    decreases es.len(),
{
    if es.len() == 0 {
        0
    } else {
        let m = max_example_len(cmd_len, es.drop_last());
        let l = cmd_len + es.last().len();
        if l > m {
            l
        } else {
            m
        }
    }
}

/// The example width that decides whether the examples field is inline:
/// measured over the examples after the first.
pub open spec fn example_len(c: PrefixCommandInfo, prefix: Seq<char>) -> int {
    let es = views(c.examples@);
    max_example_len((prefix.len() + c.names@[0]@.len()) as int, es.subrange(1, es.len() as int))
}

/// Whether the examples field is inline.
pub open spec fn examples_inline(c: PrefixCommandInfo, prefix: Seq<char>) -> bool {
    let u = usage_len(c, prefix);
    let e = example_len(c, prefix);
    let aliases = c.names@.len() > 1;
    !((u <= 29 && aliases && e > 27) || ((u > 29 || aliases) && e > 36) || e > 45)
}

/// The aliases as `` `a`, `b` ``.
pub open spec fn alias_list(ns: Seq<Seq<char>>) -> Seq<char>
    decreases ns.len(),
{
    if ns.len() == 0 {
        Seq::empty()
    } else if ns.len() == 1 {
        "`"@ + ns[0] + "`"@
    } else {
        alias_list(ns.drop_last()) + ", `"@ + ns.last() + "`"@
    }
}

/// Appends a field when there is one.
pub open spec fn opt_push(
    fs: Seq<(Seq<char>, Seq<char>, bool)>,
    f: Option<(Seq<char>, Seq<char>, bool)>,
) -> Seq<(Seq<char>, Seq<char>, bool)> {
    match f {
        Some(x) => fs.push(x),
        None => fs,
    }
}

/// The fields of a command's help: how to use it, examples, aliases, and
/// the authority requirement, each when it applies.
pub open spec fn command_help_fields(c: PrefixCommandInfo, prefix: Seq<char>) -> Seq<(Seq<char>, Seq<char>, bool)> {
    let name = c.names@[0]@;
    let usage = match c.usage {
        Some(u) => Some(("How to use"@, command_line(prefix, name, u@), usage_len(c, prefix) <= 29)),
        None => None,
    };
    let examples = if c.examples@.len() > 0 {
        Some(("Examples"@, example_lines(prefix, name, views(c.examples@)), examples_inline(c, prefix)))
    } else {
        None
    };
    let names = views(c.names@);
    let aliases = if names.len() > 1 {
        Some(("Aliases"@, alias_list(names.subrange(1, names.len() as int)), true))
    } else {
        None
    };
    let authority = if c.authority {
        Some(("Requires authority status"@, "Admin permission or manage channels permission"@, false))
    } else {
        None
    };
    opt_push(opt_push(opt_push(opt_push(Seq::empty(), usage), examples), aliases), authority)
}

/// The footer of a command's help.
pub open spec fn command_help_footer(c: PrefixCommandInfo) -> Seq<char> {
    if c.only_guilds || c.authority {
        "Only available in servers"@
    } else {
        "Available in servers and DMs"@
    }
}

fn push_command_line(out: &mut String, prefix: &str, name: &str, rest: &str)
    ensures
        final(out)@ == old(out)@ + command_line(prefix@, name@, rest@),
{
    let ghost o = out@;
    push_str(out, "`");
    push_str(out, prefix);
    push_str(out, name);
    push_str(out, " ");
    push_str(out, rest);
    push_str(out, "`");
    assert(out@ =~= o + command_line(prefix@, name@, rest@));
}

fn char_count(s: &str) -> (r: usize)
    ensures
        r == s@.len(),
{
    chars_of(s).len()
}

fn examples_value(prefix: &str, name: &str, examples: &Vec<String>) -> (r: (String, u128))
    ensures
        r.0@ == example_lines(prefix@, name@, views(examples@)),
        examples@.len() > 0 ==> r.1 == max_example_len(
            (prefix@.len() + name@.len()) as int,
            views(examples@).subrange(1, examples@.len() as int),
        ),
{
    let mut value = String::new();
    let cmd_len: u128 = (char_count(prefix) as u128) + (char_count(name) as u128);
    let mut width: u128 = 0;
    let n = examples.len();
    let ghost es = views(examples@);
    for i in 0..n
        invariant
            n == examples@.len(),
            es == views(examples@),
            cmd_len == prefix@.len() + name@.len(),
            value@ == example_lines(prefix@, name@, es.subrange(0, i as int)),
            i > 0 ==> width == max_example_len(cmd_len as int, es.subrange(1, i as int)),
            i == 0 ==> width == 0,
            cmd_len <= 2 * (usize::MAX as u128),
            width <= 3 * (usize::MAX as u128),
    {
        let ghost pre = es.subrange(0, i as int);
        let ghost next = es.subrange(0, i + 1);
        assert(next.drop_last() =~= pre);
        assert(next.last() == examples@[i as int]@);
        push_command_line(&mut value, prefix, name, examples[i].as_str());
        push_str(&mut value, "\n");
        assert(value@ =~= example_lines(prefix@, name@, next));
        if i > 0 {
            let l: u128 = cmd_len + (char_count(examples[i].as_str()) as u128);
            let ghost tail = es.subrange(1, i + 1);
            assert(tail.drop_last() =~= es.subrange(1, i as int));
            if l > width {
                width = l;
            }
            assert(width == max_example_len(cmd_len as int, tail));
        } else {
            assert(es.subrange(1, 1) =~= Seq::<Seq<char>>::empty());
        }
    }
    assert(es.subrange(0, n as int) =~= es);
    (value, width)
}

fn aliases_value(names: &Vec<String>) -> (r: String)
    requires
        names@.len() > 1,
    ensures
        r@ == alias_list(views(names@).subrange(1, names@.len() as int)),
{
    let mut value = String::new();
    let n = names.len();
    let ghost ns = views(names@);
    for i in 1..n
        invariant
            n == names@.len(),
            ns == views(names@),
            value@ == alias_list(ns.subrange(1, i as int)),
    {
        let ghost pre = ns.subrange(1, i as int);
        let ghost next = ns.subrange(1, i + 1);
        assert(next.drop_last() =~= pre);
        if i == 1 {
            push_str(&mut value, "`");
        } else {
            push_str(&mut value, ", `");
        }
        push_str(&mut value, names[i].as_str());
        push_str(&mut value, "`");
        assert(value@ =~= alias_list(next));
    }
    value
}

/// The help embed of a prefix command, written with the server's `prefix`.
pub fn command_help(cmd: &PrefixCommandInfo, prefix: &str) -> (r: HelpEmbed)
    requires
        cmd.names@.len() > 0,
    ensures
        r.title@ == cmd.names@[0]@,
        r.description@ == (match cmd.help {
            Some(h) => h@,
            None => cmd.desc@,
        }),
        r.author matches Some(a) ==> cmd.only_owner && a@ == "Can only be used by the bot owner"@,
        r.author is None ==> !cmd.only_owner,
        r.footer@ == command_help_footer(*cmd),
        fields_view(r.fields@) == command_help_fields(*cmd, prefix@),
{
    let name = cmd.names[0].as_str();
    let mut fields: Vec<EmbedFieldData> = Vec::new();
    let ghost fs0 = fields_view(fields@);
    let mut usage_width: usize = 0;
    if let Some(usage) = &cmd.usage {
        let mut value = String::new();
        push_command_line(&mut value, prefix, name, usage.as_str());
        usage_width = char_count(value.as_str());
        fields.push(field(string_of("How to use"), value, usage_width <= 29));
    }
    assert(usage_width == usage_len(*cmd, prefix@));
    if cmd.examples.len() > 0 {
        let (value, width) = examples_value(prefix, name, &cmd.examples);
        let aliases = cmd.names.len() > 1;
        let not_inline = (usage_width <= 29 && aliases && width > 27) || ((usage_width > 29 || aliases)
            && width > 36) || width > 45;
        fields.push(field(string_of("Examples"), value, !not_inline));
    }
    if cmd.names.len() > 1 {
        let value = aliases_value(&cmd.names);
        fields.push(field(string_of("Aliases"), value, true));
    }
    if cmd.authority {
        fields.push(
            field(
                string_of("Requires authority status"),
                string_of("Admin permission or manage channels permission"),
                false,
            ),
        );
    }
    assert(fields_view(fields@) =~= command_help_fields(*cmd, prefix@));
    let description = match &cmd.help {
        Some(h) => string_of(h.as_str()),
        None => string_of(cmd.desc.as_str()),
    };
    let author = if cmd.only_owner {
        Some(string_of("Can only be used by the bot owner"))
    } else {
        None
    };
    let footer = if cmd.only_guilds || cmd.authority {
        string_of("Only available in servers")
    } else {
        string_of("Available in servers and DMs")
    };
    HelpEmbed { title: string_of(name), description, author, footer, fields }
}

// ---------------------------------------------------------------------------
// The page of one category.

/// A prefix command as its category page lists it.
pub struct GroupCommand {
    pub name: String,
    pub desc: String,
    pub authority: bool,
    pub group: PrefixCommandGroup,
}

/// The names of a list of commands.
pub open spec fn command_names(cs: Seq<GroupCommand>) -> Seq<Seq<char>> {
    cs.map_values(|c: GroupCommand| c.name@)
}

/// The commands of `group`, each name once (its first occurrence), in order.
pub open spec fn group_commands(cs: Seq<GroupCommand>, group: PrefixCommandGroup) -> Seq<GroupCommand>
    decreases cs.len(),
{
    if cs.len() == 0 {
        Seq::empty()
    } else {
        let kept = group_commands(cs.drop_last(), group);
        let c = cs.last();
        if c.group == group && !command_names(kept).contains(c.name@) {
            kept.push(c)
        } else {
            kept
        }
    }
}

/// Whether commands are in non-decreasing order of their names.
pub open spec fn sorted_by_name(cs: Seq<GroupCommand>) -> bool {
    forall|i: int, j: int| 0 <= i < j < cs.len() ==> !seq_lt(#[trigger] cs[j].name@, #[trigger] cs[i].name@)
}

/// The line of a command on its category page; authority commands are
/// marked with a bold star.
pub open spec fn group_line(c: GroupCommand) -> Seq<char> {
    "`"@ + c.name@ + "`"@ + (if c.authority {
        "**\\***"@
    } else {
        ""@
    }) + ": "@ + c.desc@ + "\n"@
}

/// The lines of commands, in order.
pub open spec fn group_lines(cs: Seq<GroupCommand>) -> Seq<char>
    decreases cs.len(),
{
    if cs.len() == 0 {
        Seq::empty()
    } else {
        group_lines(cs.drop_last()) + group_line(cs.last())
    }
}

/// The heading of a category page.
pub open spec fn group_heading(emote: Seq<char>, name: Seq<char>) -> Seq<char> {
    emote + " __**"@ + name + "**__\n"@
}

/// The footer of a category page.
pub open spec fn group_footer() -> Seq<char> {
    "*: Either can't be used in DMs or requires authority status in the server"@
}

/// Sorts commands by name (`slice::sort_unstable_by_key`): the same
/// commands, in non-decreasing order of their names.
#[verifier::external_body]
fn sort_commands_by_name(v: &mut Vec<GroupCommand>)
    ensures
        final(v)@.to_multiset() == old(v)@.to_multiset(),
        final(v)@.len() == old(v)@.len(),
        sorted_by_name(final(v)@),
{
    v.sort_unstable_by_key(|c| c.name.clone());
}

/// A set of command names, held in a `hashbrown::HashSet<String>`.
#[verifier::external_body]
pub struct NameSet {
    set: hashbrown::HashSet<String>,
}

/// The names in a [`NameSet`].
pub uninterp spec fn name_set_contents(s: NameSet) -> Set<Seq<char>>;

/// An empty set of names (`hashbrown::HashSet::new`).
#[verifier::external_body]
fn name_set_new() -> (r: NameSet)
    ensures
        name_set_contents(r) == Set::<Seq<char>>::empty(),
{
    NameSet { set: hashbrown::HashSet::new() }
}

/// Adds a name to the set (`hashbrown::HashSet::insert`); true when it was
/// not in the set before.
#[verifier::external_body]
fn name_set_insert(s: &mut NameSet, name: &str) -> (r: bool)
    ensures
        name_set_contents(*final(s)) == name_set_contents(*old(s)).insert(name@),
        r == !name_set_contents(*old(s)).contains(name@),
{
    s.set.insert(name.to_owned())
}

/// The commands of a category page: those of `group`, each name once
/// (the first occurrence), sorted by name.
pub fn category_commands(commands: Vec<GroupCommand>, group: PrefixCommandGroup) -> (r: Vec<GroupCommand>)
    ensures
        r@.to_multiset() == group_commands(commands@, group).to_multiset(),
        r@.len() == group_commands(commands@, group).len(),
        sorted_by_name(r@),
{
    let mut kept: Vec<GroupCommand> = Vec::new();
    let mut seen = name_set_new();
    let mut rest = commands;
    let ghost all = rest@;
    let n = rest.len();
    for i in 0..n
        invariant
            n == all.len(),
            rest@ == all.subrange(i as int, n as int),
            kept@ == group_commands(all.subrange(0, i as int), group),
            forall|x: Seq<char>| name_set_contents(seen).contains(x) <==> command_names(kept@).contains(x),
    {
        let c = rest.remove(0);
        assert(rest@ =~= all.subrange(i + 1, n as int));
        assert(c == all[i as int]);
        let ghost pre = all.subrange(0, i as int);
        let ghost next = all.subrange(0, i + 1);
        assert(next.drop_last() =~= pre);
        if c.group == group {
            let ghost before = command_names(kept@);
            if name_set_insert(&mut seen, c.name.as_str()) {
                kept.push(c);
                proof {
                    let after = command_names(kept@);
                    assert(after =~= before.push(c.name@));
                    assert forall|x: Seq<char>| name_set_contents(seen).contains(x) <==> after.contains(x) by {
                        if after.contains(x) && x != c.name@ {
                            let k = choose|k: int| 0 <= k < after.len() && after[k] == x;
                            assert(before[k] == x);
                        }
                        if before.contains(x) {
                            let k = choose|k: int| 0 <= k < before.len() && before[k] == x;
                            assert(after[k] == x);
                        }
                        if x == c.name@ {
                            assert(after[before.len() as int] == x);
                        }
                    }
                }
            }
        }
        assert(kept@ =~= group_commands(next, group));
    }
    assert(all.subrange(0, n as int) =~= all);
    sort_commands_by_name(&mut kept);
    kept
}

fn push_group_line(out: &mut String, c: &GroupCommand)
    ensures
        final(out)@ == old(out)@ + group_line(*c),
{
    let ghost o = out@;
    push_str(out, "`");
    push_str(out, c.name.as_str());
    push_str(out, "`");
    if c.authority {
        push_str(out, "**\\***");
    } else {
        push_str(out, "");
    }
    push_str(out, ": ");
    push_str(out, c.desc.as_str());
    push_str(out, "\n");
    assert(out@ =~= o + group_line(*c));
}

/// The page of a category: its heading (the group's emote and name), then
/// a line for each of its commands (see [`category_commands`]), with the
/// star explained in the footer.
pub fn category_page(emote: &str, group_name: &str, commands: Vec<GroupCommand>, group: PrefixCommandGroup) -> (r: (String, String))
    ensures
        exists|listed: Seq<GroupCommand>|
            listed.to_multiset() == group_commands(commands@, group).to_multiset() && listed.len()
                == group_commands(commands@, group).len() && sorted_by_name(listed) && r.0@
                == group_heading(emote@, group_name@) + group_lines(listed),
        r.1@ == group_footer(),
{
    let cmds = category_commands(commands, group);
    let mut desc = String::new();
    push_str(&mut desc, emote);
    push_str(&mut desc, " __**");
    push_str(&mut desc, group_name);
    push_str(&mut desc, "**__\n");
    let ghost head = desc@;
    assert(head =~= group_heading(emote@, group_name@));
    let n = cmds.len();
    for i in 0..n
        invariant
            n == cmds@.len(),
            desc@ == head + group_lines(cmds@.subrange(0, i as int)),
    {
        let ghost next = cmds@.subrange(0, i + 1);
        assert(next.drop_last() =~= cmds@.subrange(0, i as int));
        push_group_line(&mut desc, &cmds[i]);
        assert(desc@ =~= head + group_lines(next));
    }
    assert(cmds@.subrange(0, n as int) =~= cmds@);
    let footer = string_of("*: Either can't be used in DMs or requires authority status in the server");
    (desc, footer)
}

// ---------------------------------------------------------------------------
// The general page of the slash help.

/// The links that the general help page points to.
pub struct HelpLinks {
    pub website: String,
    pub discord: String,
    pub invite: String,
    pub github: String,
}

/// The description of the general help page for the bot with user id `bot`.
pub open spec fn general_help_description(bot: u64) -> Seq<char> {
    "<@"@ + crate::text::decimal(bot as nat)
        + "> is a discord bot written by [mezo](https://osu.ppy.sh/users/13313647) which allows you render osu! replays and upload them"@
}

/// The fields of the general help page: the links, the server count and the
/// time since boot as already written.
pub open spec fn general_help_fields(
    website: Seq<char>,
    discord: Seq<char>,
    invite: Seq<char>,
    github: Seq<char>,
    servers: Seq<char>,
    boot_up: Seq<char>,
) -> Seq<(Seq<char>, Seq<char>, bool)> {
    seq![
        (
            "Do you want to view your replays?"@,
            "Head over to [shisha.mezo.xyz]("@ + website + ") and log in using discord"@,
            false,
        ),
        (
            "Got a question, suggestion, bug, or are interested in the development?"@,
            "Feel free to join the [discord server]("@ + discord + ")"@,
            false,
        ),
        ("Want to invite the bot to your server?"@, "Try using this [**invite link**]("@ + invite + ")"@, false),
        ("Servers"@, servers, true),
        ("Boot-up"@, boot_up, true),
        (
            "Interested in the code?"@,
            "The source code can be found over at [Github]("@ + github + ")"@,
            false,
        ),
    ]
}

fn wrapped(before: &str, middle: &str, after: &str) -> (r: String)
    ensures
        r@ == before@ + middle@ + after@,
{
    let mut out = string_of(before);
    push_str(&mut out, middle);
    push_str(&mut out, after);
    assert(out@ =~= before@ + middle@ + after@);
    out
}

/// The general page of the slash help: its description and fields.
pub fn general_help(bot: u64, links: &HelpLinks, servers: &str, boot_up: &str) -> (r: (String, Vec<EmbedFieldData>))
    ensures
        r.0@ == general_help_description(bot),
        fields_view(r.1@) == general_help_fields(
            links.website@,
            links.discord@,
            links.invite@,
            links.github@,
            servers@,
            boot_up@,
        ),
{
    let mut description = string_of("<@");
    crate::text::push_decimal(&mut description, bot);
    push_str(
        &mut description,
        "> is a discord bot written by [mezo](https://osu.ppy.sh/users/13313647) which allows you render osu! replays and upload them",
    );
    assert(description@ =~= general_help_description(bot));
    let mut fields: Vec<EmbedFieldData> = Vec::new();
    fields.push(
        field(
            string_of("Do you want to view your replays?"),
            wrapped("Head over to [shisha.mezo.xyz](", links.website.as_str(), ") and log in using discord"),
            false,
        ),
    );
    fields.push(
        field(
            string_of("Got a question, suggestion, bug, or are interested in the development?"),
            wrapped("Feel free to join the [discord server](", links.discord.as_str(), ")"),
            false,
        ),
    );
    fields.push(
        field(
            string_of("Want to invite the bot to your server?"),
            wrapped("Try using this [**invite link**](", links.invite.as_str(), ")"),
            false,
        ),
    );
    fields.push(field(string_of("Servers"), string_of(servers), true));
    fields.push(field(string_of("Boot-up"), string_of(boot_up), true));
    fields.push(
        field(
            string_of("Interested in the code?"),
            wrapped("The source code can be found over at [Github](", links.github.as_str(), ")"),
            false,
        ),
    );
    assert(fields_view(fields@) =~~= general_help_fields(
        links.website@,
        links.discord@,
        links.invite@,
        links.github@,
        servers@,
        boot_up@,
    ));
    (description, fields)
}

// ---------------------------------------------------------------------------
// Help pages of slash commands and their subcommands.

/// A slash command as the help reads it.
pub struct SlashCommandInfo {
    /// The command: its name, description, help and options (`kind` unused).
    pub command: CommandOptionInfo,
    /// Whether the command requires authority status.
    pub authority: bool,
}

/// Whether `i` is the first position among `cs` of an option named `name`.
pub open spec fn first_named(cs: Seq<CommandOptionInfo>, name: Seq<char>, i: int) -> bool {
    &&& 0 <= i < cs.len()
    &&& cs[i].name@ == name
    &&& forall|j: int| 0 <= j < i ==> (#[trigger] cs[j]).name@ != name
}

/// The option named `name` among `cs` (the first such), if any.
pub open spec fn named_child(cs: Seq<CommandOptionInfo>, name: Seq<char>) -> Option<CommandOptionInfo> {
    if exists|i: int| first_named(cs, name, i) {
        Some(cs[choose|i: int| first_named(cs, name, i)])
    } else {
        None
    }
}

/// The option reached from `node` by the names from position `k` on, in
/// turn: each step goes to the option of that name below a subcommand or
/// group.
pub open spec fn walk_at(node: CommandOptionInfo, names: Seq<Seq<char>>, k: int) -> Option<CommandOptionInfo>
    decreases names.len() - k,
{
    if k >= names.len() {
        Some(node)
    } else if node.kind == OptionKind::Value {
        None
    } else {
        match named_child(node.options@, names[k]) {
            Some(c) => walk_at(c, names, k + 1),
            None => None,
        }
    }
}

/// The option reached from a slash command by the names in turn.
pub open spec fn walk_command(command: CommandOptionInfo, names: Seq<Seq<char>>) -> Option<CommandOptionInfo> {
    if names.len() == 0 {
        Some(command)
    } else {
        match named_child(command.options@, names[0]) {
            Some(c) => walk_at(c, names, 1),
            None => None,
        }
    }
}

/// Whether `i` is the first position among `cs` of a command named `name`.
pub open spec fn first_command(cs: Seq<SlashCommandInfo>, name: Seq<char>, i: int) -> bool {
    &&& 0 <= i < cs.len()
    &&& cs[i].command.name@ == name
    &&& forall|j: int| 0 <= j < i ==> (#[trigger] cs[j]).command.name@ != name
}

/// The slash command named `name` among `cs` (the first such), if any.
pub open spec fn named_command(cs: Seq<SlashCommandInfo>, name: Seq<char>) -> Option<SlashCommandInfo> {
    if exists|i: int| first_command(cs, name, i) {
        Some(cs[choose|i: int| first_command(cs, name, i)])
    } else {
        None
    }
}

proof fn lemma_first_named_unique(cs: Seq<CommandOptionInfo>, name: Seq<char>, i: int, k: int)
    requires
        first_named(cs, name, i),
        first_named(cs, name, k),
    ensures
        i == k,
{
    if i < k {
        assert(cs[i].name@ != name);
    } else if k < i {
        assert(cs[k].name@ != name);
    }
}

fn find_child(cs: &Vec<CommandOptionInfo>, name: &str) -> (r: Option<usize>)
    ensures
        match r {
            Some(i) => first_named(cs@, name@, i as int) && named_child(cs@, name@) == Some(cs@[i as int]),
            None => named_child(cs@, name@) is None,
        },
{
    let n = cs.len();
    for i in 0..n
        invariant
            n == cs@.len(),
            forall|j: int| 0 <= j < i ==> (#[trigger] cs@[j]).name@ != name@,
    {
        if str_eq(cs[i].name.as_str(), name) {
            proof {
                assert(first_named(cs@, name@, i as int));
                let k = choose|k: int| first_named(cs@, name@, k);
                lemma_first_named_unique(cs@, name@, i as int, k);
            }
            return Some(i);
        }
    }
    proof {
        if exists|k: int| first_named(cs@, name@, k) {
            let k = choose|k: int| first_named(cs@, name@, k);
            assert(cs@[k].name@ == name@);
        }
    }
    None
}

fn walk_from<'a>(node: &'a CommandOptionInfo, names: &Vec<String>, start: usize) -> (r: Option<&'a CommandOptionInfo>)
    requires
        start <= names@.len(),
    ensures
        match r {
            Some(n) => walk_at(*node, views(names@), start as int) == Some(*n),
            None => walk_at(*node, views(names@), start as int) is None,
        },
    decreases names@.len() - start,
{
    if start == names.len() {
        return Some(node);
    }
    if node.kind == OptionKind::Value {
        return None;
    }
    assert(views(names@)[start as int] == names@[start as int]@);
    match find_child(&node.options, names[start].as_str()) {
        Some(i) => walk_from(&node.options[i], names, start + 1),
        None => None,
    }
}

fn find_command(commands: &Vec<SlashCommandInfo>, name: &str) -> (r: Option<usize>)
    ensures
        match r {
            Some(i) => i < commands@.len() && named_command(commands@, name@) == Some(commands@[i as int]),
            None => named_command(commands@, name@) is None,
        },
{
    let n = commands.len();
    for i in 0..n
        invariant
            n == commands@.len(),
            forall|j: int| 0 <= j < i ==> (#[trigger] commands@[j]).command.name@ != name@,
    {
        if str_eq(commands[i].command.name.as_str(), name) {
            proof {
                let cs = commands@;
                assert(first_command(cs, name@, i as int));
                let k = choose|k: int| first_command(cs, name@, k);
                if k < i {
                    assert(cs[k].command.name@ != name@);
                } else if i < k {
                    assert(cs[i as int].command.name@ != name@);
                }
            }
            return Some(i);
        }
    }
    proof {
        let cs = commands@;
        if exists|k: int| first_command(cs, name@, k) {
            let k = choose|k: int| first_command(cs, name@, k);
            assert(cs[k].command.name@ == name@);
        }
    }
    None
}

/// A help page of a slash command or subcommand.
pub struct HelpPage {
    pub title: String,
    pub description: String,
    /// `Requires authority status` for commands that need it.
    pub footer: Option<String>,
    pub fields: Vec<EmbedFieldData>,
    pub menus: Vec<SelectMenuData>,
}

/// The help text of an option: its help, else its description.
pub open spec fn help_text(o: CommandOptionInfo) -> Seq<char> {
    match o.help {
        Some(h) => h@,
        None => o.description@,
    }
}

/// The footer of a help page.
pub open spec fn authority_footer(authority: bool) -> Option<Seq<char>> {
    if authority {
        Some("Requires authority status"@)
    } else {
        None
    }
}

fn help_page(
    title: String,
    node: &CommandOptionInfo,
    authority: bool,
    is_owner: bool,
    summaries: &Vec<CommandSummary>,
) -> (r: HelpPage)
    ensures
        r.title@ == title@,
        r.description@ == help_text(*node),
        opt_view(r.footer) == authority_footer(authority),
        fields_view(r.fields@) == option_fields_spec(node.options@),
        r.menus@.len() >= 1,
        options_view(r.menus@[0].options@) == base_options_spec(summaries@, is_owner),
        r.menus@.len() == 2 <==> subcommand_options_spec(node.options@).len() > 0,
        r.menus@.len() == 2 ==> options_view(r.menus@[1].options@) == subcommand_options_spec(node.options@),
{
    let description = match &node.help {
        Some(h) => string_of(h.as_str()),
        None => string_of(node.description.as_str()),
    };
    let footer = if authority {
        Some(string_of("Requires authority status"))
    } else {
        None
    };
    let fields = option_fields(&node.options);
    let menus = generate_menus(is_owner, summaries, &node.options);
    HelpPage { title, description, footer, fields, menus }
}

/// The help page of the slash command chosen in the base menu (`None` when
/// no such command exists). `summaries` list the commands for the base
/// menu; `is_owner` tells whether the user owns the bot.
pub fn help_basecommand(commands: &Vec<SlashCommandInfo>, name: &str, is_owner: bool, summaries: &Vec<CommandSummary>) -> (r: Option<HelpPage>)
    ensures
        match named_command(commands@, name@) {
            None => r is None,
            Some(c) => r matches Some(p) && {
                &&& p.title@ == c.command.name@
                &&& p.description@ == help_text(c.command)
                &&& opt_view(p.footer) == authority_footer(c.authority)
                &&& fields_view(p.fields@) == option_fields_spec(c.command.options@)
                &&& (p.menus@.len() == 2 <==> subcommand_options_spec(c.command.options@).len() > 0)
            },
        },
{
    match find_command(commands, name) {
        None => None,
        Some(i) => {
            let c = &commands[i];
            Some(help_page(string_of(c.command.name.as_str()), &c.command, c.authority, is_owner, summaries))
        },
    }
}

/// The page reached from the help page titled `title` (the command and the
/// subcommands shown so far, separated by spaces) by choosing `name` in the
/// subcommand menu: its title is `title`, a space and the chosen option's
/// name. `None` when the title or the choice names no option.
pub fn help_subcommand(commands: &Vec<SlashCommandInfo>, title: &str, name: &str, is_owner: bool, summaries: &Vec<CommandSummary>) -> (r: Option<HelpPage>)
    ensures
        ({
            let words = split_pieces(title@, ' ');
            let path = words.drop_first().push(name@);
            match named_command(commands@, words[0]) {
                None => r is None,
                Some(c) => match walk_command(c.command, path) {
                    None => r is None,
                    Some(o) => r matches Some(p) && {
                        &&& p.title@ == title@ + " "@ + o.name@
                        &&& p.description@ == help_text(o)
                        &&& opt_view(p.footer) == authority_footer(c.authority)
                        &&& fields_view(p.fields@) == option_fields_spec(o.options@)
                        &&& (p.menus@.len() == 2 <==> subcommand_options_spec(o.options@).len() > 0)
                    },
                },
            }
        }),
{
    let mut words = split_char(title, ' ');
    proof {
        crate::text::lemma_split_pieces_nonempty(title@, ' ');
    }
    let ghost ws = split_pieces(title@, ' ');
    assert(views(words@) == ws);
    let base = words.remove(0);
    assert(base@ == ws[0]);
    words.push(string_of(name));
    let ghost path = ws.drop_first().push(name@);
    assert(views(words@) =~= path);
    let i = match find_command(commands, base.as_str()) {
        None => return None,
        Some(i) => i,
    };
    let c = &commands[i];
    let node = if words.len() == 0 {
        &c.command
    } else {
        match find_child(&c.command.options, words[0].as_str()) {
            None => return None,
            Some(k) => match walk_from(&c.command.options[k], &words, 1) {
                None => return None,
                Some(n) => n,
            },
        }
    };
    let mut new_title = string_of(title);
    push_str(&mut new_title, " ");
    push_str(&mut new_title, node.name.as_str());
    Some(help_page(new_title, node, c.authority, is_owner, summaries))
}

} // verus!
