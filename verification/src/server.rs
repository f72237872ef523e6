//! Per-server settings of the prefix commands: command prefixes and the
//! input/output channels for replays.

use std::collections::HashMap;

use vstd::prelude::*;

use crate::guild_setup::{channel_mention, push_channel_mention};
use crate::text::{
    chars_of, parse_u64, parse_unsigned, push_str, split_whitespace, str_eq, string_from_chars,
    string_of, views, words,
};

verus! {

broadcast use vstd::std_specs::hash::group_hash_axioms;

/// The settings of one server.
pub struct Server {
    /// The channel in which replays are picked up (0: none).
    pub input_channel: u64,
    /// The channel into which rendered replays are posted (0: none).
    pub output_channel: u64,
    /// The command prefixes configured for the server.
    pub prefixes: Vec<String>,
}

/// The settings of a server that has none yet.
pub open spec fn default_server() -> (u64, u64, Seq<Seq<char>>) {
    (0, 0, Seq::<Seq<char>>::empty())
}

/// The view of a server's settings: input channel, output channel, prefixes.
pub open spec fn server_view(s: Server) -> (u64, u64, Seq<Seq<char>>) {
    (s.input_channel, s.output_channel, views(s.prefixes@))
}

// ---------------------------------------------------------------------------
// Prefix lists.

/// `prefixes` after adding each of `args` in turn, unless already present.
pub open spec fn add_prefixes_spec(prefixes: Seq<Seq<char>>, args: Seq<Seq<char>>) -> Seq<Seq<char>>
    decreases args.len(),
{
    if args.len() == 0 {
        prefixes
    } else {
        let p = add_prefixes_spec(prefixes, args.drop_last());
        if p.contains(args.last()) {
            p
        } else {
            p.push(args.last())
        }
    }
}

/// `prefixes` without any of `args`.
pub open spec fn remove_prefixes_spec(prefixes: Seq<Seq<char>>, args: Seq<Seq<char>>) -> Seq<
    Seq<char>,
> {
    prefixes.filter(|p: Seq<char>| !args.contains(p))
}

/// Whether `v` contains a string equal to `x`.
fn contains_string(v: &Vec<String>, x: &str) -> (r: bool)
    ensures
        r == views(v@).contains(x@),
{
    let n = v.len();
    let target = chars_of(x);
    for i in 0..n
        invariant
            n == v@.len(),
            target@ == x@,
            forall|j: int| 0 <= j < i ==> v@[j]@ != x@,
    {
        if str_eq(v[i].as_str(), x) {
            assert(views(v@)[i as int] == x@);
            return true;
        }
    }
    assert forall|j: int| 0 <= j < views(v@).len() implies views(v@)[j] != x@ by {
        assert(views(v@)[j] == v@[j]@);
    }
    false
}

/// Adds each of `args` to `prefixes` in turn, unless already present.
pub fn add_prefixes(prefixes: &mut Vec<String>, args: &Vec<String>)
    ensures
        views(final(prefixes)@) == add_prefixes_spec(views(old(prefixes)@), views(args@)),
{
    let n = args.len();
    let ghost p0 = views(prefixes@);
    for i in 0..n
        invariant
            n == args@.len(),
            views(prefixes@) == add_prefixes_spec(p0, views(args@.subrange(0, i as int))),
    {
        let ghost pre = views(args@.subrange(0, i + 1));
        assert(pre.drop_last() =~= views(args@.subrange(0, i as int)));
        assert(pre.last() == args@[i as int]@);
        if !contains_string(prefixes, args[i].as_str()) {
            prefixes.push(string_of(args[i].as_str()));
            assert(views(prefixes@) =~= add_prefixes_spec(p0, pre));
        }
    }
    assert(args@.subrange(0, n as int) =~= args@);
}

/// Removes every prefix equal to one of `args`.
pub fn remove_prefixes(prefixes: &mut Vec<String>, args: &Vec<String>)
    ensures
        views(final(prefixes)@) == remove_prefixes_spec(views(old(prefixes)@), views(args@)),
{
    let mut kept: Vec<String> = Vec::new();
    let n = prefixes.len();
    let ghost a = views(args@);
    for i in 0..n
        invariant
            n == prefixes@.len(),
            prefixes@ == old(prefixes)@,
            a == views(args@),
            views(kept@) == remove_prefixes_spec(views(prefixes@.subrange(0, i as int)), a),
    {
        let ghost pre = views(prefixes@.subrange(0, i + 1));
        assert(pre.drop_last() =~= views(prefixes@.subrange(0, i as int)));
        assert(pre.last() == prefixes@[i as int]@);
        let ghost kv = views(kept@);
        proof {
            reveal(Seq::filter);
        }
        assert(remove_prefixes_spec(pre, a) == (if !a.contains(pre.last()) {
            remove_prefixes_spec(pre.drop_last(), a).push(pre.last())
        } else {
            remove_prefixes_spec(pre.drop_last(), a)
        }));
        if !contains_string(args, prefixes[i].as_str()) {
            let c = string_of(prefixes[i].as_str());
            kept.push(c);
            assert(views(kept@) =~= kv.push(pre.last()));
        }
    }
    assert(prefixes@.subrange(0, n as int) =~= prefixes@);
    *prefixes = kept;
}

// ---------------------------------------------------------------------------
// The prefix command.

/// `` `p1`, `p2`, ... `` for a non-empty list.
pub open spec fn quoted_list(ps: Seq<Seq<char>>) -> Seq<char>
    decreases ps.len(),
{
    if ps.len() <= 1 {
        if ps.len() == 0 {
            Seq::<char>::empty()
        } else {
            "`"@ + ps[0] + "`"@
        }
    } else {
        quoted_list(ps.drop_last()) + ", `"@ + ps.last() + "`"@
    }
}

/// The text that says that only the default prefix works.
pub open spec fn no_prefixes_text(default_prefix: Seq<char>) -> Seq<char> {
    "There are no configured prefixes for this server so only the default prefix `"@
        + default_prefix + "` works."@
}

/// The text that lists a server's prefixes, or says that there are none.
pub open spec fn prefixes_text(ps: Seq<Seq<char>>, default_prefix: Seq<char>) -> Seq<char> {
    if ps.len() > 0 {
        "Current prefixes for this server: "@ + quoted_list(ps)
    } else {
        no_prefixes_text(default_prefix)
    }
}

fn push_quoted_list(out: &mut String, ps: &Vec<String>)
    ensures
        final(out)@ == old(out)@ + quoted_list(views(ps@)),
{
    let n = ps.len();
    let ghost o = out@;
    for i in 0..n
        invariant
            n == ps@.len(),
            out@ == o + quoted_list(views(ps@.subrange(0, i as int))),
    {
        proof {
            reveal_strlit("`");
            reveal_strlit(", `");
        }
        let ghost pre = views(ps@.subrange(0, i + 1));
        assert(pre.drop_last() =~= views(ps@.subrange(0, i as int)));
        let ghost before = out@;
        if i == 0 {
            push_str(out, "`");
        } else {
            push_str(out, ", `");
        }
        push_str(out, ps[i].as_str());
        push_str(out, "`");
        assert(out@ =~= o + quoted_list(pre));
    }
    assert(ps@.subrange(0, n as int) =~= ps@);
}

fn push_prefixes_text(out: &mut String, ps: &Vec<String>, default_prefix: &str)
    ensures
        final(out)@ == old(out)@ + prefixes_text(views(ps@), default_prefix@),
{
    if ps.len() > 0 {
        push_str(out, "Current prefixes for this server: ");
        push_quoted_list(out, ps);
    } else {
        push_str(out, "There are no configured prefixes for this server so only the default prefix `");
        push_str(out, default_prefix);
        push_str(out, "` works.");
    }
    assert(out@ =~= old(out)@ + prefixes_text(views(ps@), default_prefix@));
}

/// The reply of the prefix command.
pub struct PrefixReply {
    /// The text of the reply.
    pub content: String,
    /// Whether the text goes into an embed (else it is a plain message).
    pub as_embed: bool,
    /// Whether the server settings changed and are to be saved.
    pub save: bool,
}

/// What the prefix command does for `args` (the words after the command):
/// `add`/`a` adds prefixes, `remove`/`r` removes them, no argument lists them.
pub open spec fn prefix_command_spec(
    servers: Map<u64, Server>,
    guild: u64,
    args: Seq<Seq<char>>,
    default_prefix: Seq<char>,
) -> (Map<u64, (u64, u64, Seq<Seq<char>>)>, Seq<char>, bool, bool) {
    let views_map = servers.map_values(|s: Server| server_view(s));
    if args.len() > 0 && (args[0] == "add"@ || args[0] == "a"@) {
        let old_server = if servers.contains_key(guild) {
            server_view(servers[guild])
        } else {
            default_server()
        };
        let ps = add_prefixes_spec(old_server.2, args.drop_first());
        (
            views_map.insert(guild, (old_server.0, old_server.1, ps)),
            "Successfully added prefixes.\n"@ + prefixes_text(ps, default_prefix),
            true,
            true,
        )
    } else if args.len() > 0 && (args[0] == "remove"@ || args[0] == "r"@) {
        if servers.contains_key(guild) {
            let s = server_view(servers[guild]);
            let ps = remove_prefixes_spec(s.2, args.drop_first());
            (
                views_map.insert(guild, (s.0, s.1, ps)),
                "Successfully removed prefixes.\n"@ + prefixes_text(ps, default_prefix),
                true,
                ps.len() != s.2.len(),
            )
        } else {
            (views_map, no_prefixes_text(default_prefix), true, false)
        }
    } else if args.len() > 0 {
        (
            views_map,
            "Either don't provide any arguments to list all current prefixes or use `add` or `remove` as first argument to modify the server prefixes."@,
            false,
            false,
        )
    } else if servers.contains_key(guild) && servers[guild].prefixes@.len() > 0 {
        (views_map, prefixes_text(views(servers[guild].prefixes@), default_prefix), true, false)
    } else {
        (
            views_map,
            no_prefixes_text(default_prefix)
                + "\nUse `add` or `remove` as first argument to this command to adjust prefixes."@,
            true,
            false,
        )
    }
}

/// Runs the prefix command on the server settings and returns its reply.
pub fn prefix_command(
    servers: &mut HashMap<u64, Server>,
    guild: u64,
    args: &Vec<String>,
    default_prefix: &str,
) -> (r: PrefixReply)
    ensures
        ({
            let (m, content, as_embed, save) = prefix_command_spec(
                old(servers)@,
                guild,
                views(args@),
                default_prefix@,
            );
            &&& final(servers)@.map_values(|s: Server| server_view(s)) == m
            &&& r.content@ == content
            &&& r.as_embed == as_embed
            &&& r.save == save
        }),
{
    proof {
        reveal_strlit("add");
        reveal_strlit("a");
        reveal_strlit("remove");
        reveal_strlit("r");
        reveal_strlit("Successfully added prefixes.\n");
        reveal_strlit("Successfully removed prefixes.\n");
    }
    let ghost a = views(args@);
    let ghost spec = prefix_command_spec(old(servers)@, guild, a, default_prefix@);
    let rest: Vec<String> = if args.len() > 0 {
        let mut r: Vec<String> = Vec::new();
        let n = args.len();
        for i in 1..n
            invariant
                n == args@.len(),
                n > 0,
                r@.len() == i - 1,
                forall|j: int| 0 <= j < i - 1 ==> #[trigger] r@[j]@ == args@[j + 1]@,
        {
            r.push(string_of(args[i].as_str()));
        }
        assert(views(r@) =~= a.drop_first());
        r
    } else {
        Vec::new()
    };
    let first_is = |lit: &str| -> (b: bool)
        ensures
            b == (args@.len() > 0 && args@[0]@ == lit@),
        {
            args.len() > 0 && str_eq(args[0].as_str(), lit)
        };
    if first_is("add") || first_is("a") {
        let mut server = match servers.remove(&guild) {
            Some(s) => s,
            None => Server { input_channel: 0, output_channel: 0, prefixes: Vec::new() },
        };
        let ghost old_view = if old(servers)@.contains_key(guild) {
            server_view(old(servers)@[guild])
        } else {
            default_server()
        };
        assert(server_view(server).0 == old_view.0 && server_view(server).1 == old_view.1
            && server_view(server).2 =~= old_view.2);
        add_prefixes(&mut server.prefixes, &rest);
        let mut content = String::from_str("Successfully added prefixes.\n");
        push_prefixes_text(&mut content, &server.prefixes, default_prefix);
        let ghost sv = server_view(server);
        servers.insert(guild, server);
        assert(servers@.map_values(|s: Server| server_view(s)) =~= spec.0) by {
            assert(servers@ == old(servers)@.remove(guild).insert(guild, servers@[guild]));
            assert forall|k: u64| #[trigger] spec.0.contains_key(k) implies servers@.contains_key(
                k,
            ) && server_view(servers@[k]) == spec.0[k] by {
                if k != guild {
                    assert(old(servers)@.contains_key(k));
                }
            }
        }
        assert(content@ =~= spec.1);
        PrefixReply { content, as_embed: true, save: true }
    } else if first_is("remove") || first_is("r") {
        match servers.remove(&guild) {
            Some(server) => {
                let mut server = server;
                let before = server.prefixes.len();
                remove_prefixes(&mut server.prefixes, &rest);
                let changed = server.prefixes.len() != before;
                let mut content = String::from_str("Successfully removed prefixes.\n");
                push_prefixes_text(&mut content, &server.prefixes, default_prefix);
                servers.insert(guild, server);
                assert(servers@.map_values(|s: Server| server_view(s)) =~= spec.0);
                PrefixReply { content, as_embed: true, save: changed }
            },
            None => {
                let mut content = String::new();
                push_str(
                    &mut content,
                    "There are no configured prefixes for this server so only the default prefix `",
                );
                push_str(&mut content, default_prefix);
                push_str(&mut content, "` works.");
                assert(servers@.map_values(|s: Server| server_view(s)) =~= spec.0);
                PrefixReply { content, as_embed: true, save: false }
            },
        }
    } else if args.len() > 0 {
        PrefixReply {
            content: String::from_str(
                "Either don't provide any arguments to list all current prefixes or use `add` or `remove` as first argument to modify the server prefixes.",
            ),
            as_embed: false,
            save: false,
        }
    } else {
        let listed = match servers.get(&guild) {
            Some(server) => if server.prefixes.len() > 0 {
                let mut content = String::new();
                push_prefixes_text(&mut content, &server.prefixes, default_prefix);
                Some(content)
            } else {
                None
            },
            None => None,
        };
        match listed {
            Some(content) => PrefixReply { content, as_embed: true, save: false },
            None => {
                let mut content = String::new();
                push_str(
                    &mut content,
                    "There are no configured prefixes for this server so only the default prefix `",
                );
                push_str(&mut content, default_prefix);
                push_str(
                    &mut content,
                    "` works.\nUse `add` or `remove` as first argument to this command to adjust prefixes.",
                );
                proof {
                    reveal_strlit(
                        "There are no configured prefixes for this server so only the default prefix `",
                    );
                    reveal_strlit("` works.");
                    reveal_strlit(
                        "` works.\nUse `add` or `remove` as first argument to this command to adjust prefixes.",
                    );
                    reveal_strlit(
                        "\nUse `add` or `remove` as first argument to this command to adjust prefixes.",
                    );
                }
                assert(content@ =~= spec.1);
                PrefixReply { content, as_embed: true, save: false }
            },
        }
    }
}


// ---------------------------------------------------------------------------
// Laws of the prefix lists.

/// Whether no string occurs twice.
pub open spec fn distinct(ps: Seq<Seq<char>>) -> bool {
    forall|i: int, j: int| 0 <= i < j < ps.len() ==> ps[i] != ps[j]
}

/// Adding prefixes keeps every earlier prefix in its place, leaves every
/// argument present, never introduces a duplicate, and adds nothing else.
pub proof fn law_add_prefixes(ps: Seq<Seq<char>>, args: Seq<Seq<char>>)
    ensures
        add_prefixes_spec(ps, args).len() >= ps.len(),
        add_prefixes_spec(ps, args).subrange(0, ps.len() as int) == ps,
        forall|i: int| 0 <= i < args.len() ==> add_prefixes_spec(ps, args).contains(#[trigger] args[i]),
        forall|x: Seq<char>| #[trigger] add_prefixes_spec(ps, args).contains(x) ==> ps.contains(x) || args.contains(x),
        distinct(ps) ==> distinct(add_prefixes_spec(ps, args)),
    decreases args.len(),
{
    if args.len() > 0 {
        let init = args.drop_last();
        law_add_prefixes(ps, init);
        let p = add_prefixes_spec(ps, init);
        let r = add_prefixes_spec(ps, args);
        assert forall|i: int| 0 <= i < args.len() implies r.contains(#[trigger] args[i]) by {
            if i < args.len() - 1 {
                assert(init[i] == args[i]);
                let k = choose|k: int| 0 <= k < p.len() && p[k] == init[i];
                assert(r[k] == args[i]);
            } else if !p.contains(args.last()) {
                assert(r[r.len() - 1] == args[i]);
            }
        }
        assert forall|x: Seq<char>| #[trigger] r.contains(x) implies ps.contains(x) || args.contains(x) by {
            let k = choose|k: int| 0 <= k < r.len() && r[k] == x;
            if k < p.len() {
                assert(p[k] == x);
                assert(p.contains(x));
                if init.contains(x) {
                    let m = choose|m: int| 0 <= m < init.len() && init[m] == x;
                    assert(args[m] == x);
                }
            } else {
                assert(args[args.len() - 1] == x);
            }
        }
        assert(r.subrange(0, ps.len() as int) =~= ps) by {
            assert(p.subrange(0, ps.len() as int) == ps);
        }
    } else {
        assert(ps.subrange(0, ps.len() as int) =~= ps);
    }
}

/// Removing prefixes leaves none of the arguments, and removing what was
/// just added gives the same list as removing it from the list before.
pub proof fn law_remove_prefixes(ps: Seq<Seq<char>>, args: Seq<Seq<char>>)
    ensures
        forall|i: int| 0 <= i < args.len() ==> !remove_prefixes_spec(ps, args).contains(#[trigger] args[i]),
        remove_prefixes_spec(add_prefixes_spec(ps, args), args) == remove_prefixes_spec(ps, args),
{
    let pred = |p: Seq<char>| !args.contains(p);
    let r = remove_prefixes_spec(ps, args);
    assert forall|i: int| 0 <= i < args.len() implies !r.contains(#[trigger] args[i]) by {
        if r.contains(args[i]) {
            let k = choose|k: int| 0 <= k < r.len() && r[k] == args[i];
            ps.lemma_filter_pred(pred, k);
            assert(args.contains(args[i]));
        }
    }
    lemma_remove_after_add(ps, args, args);
}

proof fn lemma_remove_after_add(ps: Seq<Seq<char>>, added: Seq<Seq<char>>, args: Seq<Seq<char>>)
    requires
        forall|x: Seq<char>| #[trigger] added.contains(x) ==> args.contains(x),
    ensures
        remove_prefixes_spec(add_prefixes_spec(ps, added), args) == remove_prefixes_spec(ps, args),
    decreases added.len(),
{
    reveal(Seq::filter);
    if added.len() > 0 {
        let init = added.drop_last();
        assert forall|x: Seq<char>| #[trigger] init.contains(x) implies args.contains(x) by {
            let k = choose|k: int| 0 <= k < init.len() && init[k] == x;
            assert(added[k] == x);
            assert(added.contains(x));
        }
        lemma_remove_after_add(ps, init, args);
        let p = add_prefixes_spec(ps, init);
        if !p.contains(added.last()) {
            assert(added.contains(added.last()) ) by {
                assert(added[added.len() - 1] == added.last());
            }
            let pushed = p.push(added.last());
            assert(pushed.drop_last() =~= p);
        }
    }
}

// ---------------------------------------------------------------------------
// Channel setup.

/// The id in a channel mention `<#id>` or a plain id, as the chat framework
/// reads channel arguments (`ChannelId::from_str`).
pub open spec fn parse_channel_spec(s: Seq<char>) -> Option<nat> {
    if s.len() >= 3 && s[0] == '<' && s[1] == '#' && s[s.len() - 1] == '>' {
        parse_unsigned(s.subrange(2, s.len() - 1), u64::MAX as nat)
    } else {
        parse_unsigned(s, u64::MAX as nat)
    }
}

/// Reads a channel mention `<#id>` or a plain id.
pub fn parse_channel(s: &str) -> (r: Option<u64>)
    ensures
        match r {
            Some(id) => parse_channel_spec(s@) == Some(id as nat),
            None => parse_channel_spec(s@) is None,
        },
{
    let v = chars_of(s);
    let n = v.len();
    if n >= 3 && v[0] == '<' && v[1] == '#' && v[n - 1] == '>' {
        let inner = string_from_chars(&v[2..n - 1]);
        parse_u64(inner.as_str())
    } else {
        parse_u64(s)
    }
}

/// The channels mentioned in a message: the words that read as channels.
pub open spec fn mentioned_channels(content: Seq<char>) -> Seq<nat> {
    words(content).filter_map(channel_parser())
}

/// [`parse_channel_spec`] as a function value.
pub open spec fn channel_parser() -> spec_fn(Seq<char>) -> Option<nat> {
    |w: Seq<char>| parse_channel_spec(w)
}

/// What the setup command does.
pub enum SetupOutcome {
    /// Input and output channel were set; the settings are to be saved.
    Updated,
    /// The server has an output channel: show both channels.
    ShowCurrent { input: u64, output: u64 },
    /// The server has settings but no output channel: nothing to show.
    Nothing,
    /// Fewer than two channels were mentioned and the server has no settings.
    NeedTwoChannels,
}

/// Runs the setup command: with two channel mentions in `content`, the first
/// becomes the input and the second the output channel of `guild`.
pub fn setup_command(servers: &mut HashMap<u64, Server>, guild: u64, content: &str) -> (r:
    SetupOutcome)
    ensures
        ({
            let ch = mentioned_channels(content@);
            let before = old(servers)@.map_values(|s: Server| server_view(s));
            let after = final(servers)@.map_values(|s: Server| server_view(s));
            if ch.len() >= 2 {
                &&& r is Updated
                &&& after == before.insert(
                    guild,
                    (
                        ch[0] as u64,
                        ch[1] as u64,
                        if before.contains_key(guild) {
                            before[guild].2
                        } else {
                            Seq::<Seq<char>>::empty()
                        },
                    ),
                )
            } else {
                &&& after == before
                &&& if before.contains_key(guild) {
                    if before[guild].1 != 0 {
                        r == SetupOutcome::ShowCurrent {
                            input: before[guild].0,
                            output: before[guild].1,
                        }
                    } else {
                        r is Nothing
                    }
                } else {
                    r is NeedTwoChannels
                }
            }
        }),
{
    let words_v = split_whitespace(content);
    let n = words_v.len();
    let mut found: Vec<u64> = Vec::new();
    let ghost f = channel_parser();
    let mut i: usize = 0;
    while i < n && found.len() < 2
        invariant
            i <= n,
            n == words_v@.len(),
            views(words_v@) == words(content@),
            found@.len() <= 2,
            f == channel_parser(),
            found@.map_values(|x: u64| x as nat) == views(words_v@.subrange(0, i as int)).filter_map(f),
        decreases n - i,
    {
        let ghost pre = views(words_v@.subrange(0, i + 1));
        assert(pre.drop_last() =~= views(words_v@.subrange(0, i as int)));
        assert(pre.last() == words_v@[i as int]@);
        assert(f(pre.last()) == parse_channel_spec(pre.last()));
        let ghost fv = found@.map_values(|x: u64| x as nat);
        let parsed = parse_channel(words_v[i].as_str());
        match parsed {
            Some(id) => {
                found.push(id);
                assert(found@.map_values(|x: u64| x as nat) =~= fv + seq![id as nat]);
            },
            None => {},
        }
        proof {
            reveal(Seq::filter_map);
        }
        assert(found@.map_values(|x: u64| x as nat) =~= pre.filter_map(f));
        i = i + 1;
    }
    proof {
        let all = views(words_v@);
        let pre = views(words_v@.subrange(0, i as int));
        lemma_filter_map_prefix(all, i as int, f);
        assert(all.subrange(0, i as int) =~= pre);
    }
    if found.len() >= 2 {
        let id1 = found[0];
        let id2 = found[1];
        let server = match servers.remove(&guild) {
            Some(s) => Server { input_channel: id1, output_channel: id2, prefixes: s.prefixes },
            None => Server { input_channel: id1, output_channel: id2, prefixes: Vec::new() },
        };
        servers.insert(guild, server);
        proof {
            let before = old(servers)@.map_values(|s: Server| server_view(s));
            let after = servers@.map_values(|s: Server| server_view(s));
            let ch = mentioned_channels(content@);
            assert(ch[0] == id1 as nat && ch[1] == id2 as nat);
            assert forall|k: u64| #[trigger] after.contains_key(k) <==> before.insert(
                guild,
                (
                    ch[0] as u64,
                    ch[1] as u64,
                    if before.contains_key(guild) {
                        before[guild].2
                    } else {
                        Seq::<Seq<char>>::empty()
                    },
                ),
            ).contains_key(k) by {}
            assert forall|k: u64| #[trigger] after.contains_key(k) implies after[k] == before.insert(
                guild,
                (
                    ch[0] as u64,
                    ch[1] as u64,
                    if before.contains_key(guild) {
                        before[guild].2
                    } else {
                        Seq::<Seq<char>>::empty()
                    },
                ),
            )[k] by {
                if k == guild {
                    assert(servers@[k].input_channel == id1);
                }
            }
            assert(after =~= before.insert(
                guild,
                (
                    ch[0] as u64,
                    ch[1] as u64,
                    if before.contains_key(guild) {
                        before[guild].2
                    } else {
                        Seq::<Seq<char>>::empty()
                    },
                ),
            ));
        }
        SetupOutcome::Updated
    } else {
        match servers.get(&guild) {
            Some(server) => {
                if server.output_channel != 0 {
                    SetupOutcome::ShowCurrent {
                        input: server.input_channel,
                        output: server.output_channel,
                    }
                } else {
                    SetupOutcome::Nothing
                }
            },
            None => SetupOutcome::NeedTwoChannels,
        }
    }
}

/// The first results of a `filter_map` come from a prefix of the input:
/// when fewer than two results come from the first `i` items and the rest
/// has none, or when two results already came from them, the first two
/// agree.
proof fn lemma_filter_map_prefix(s: Seq<Seq<char>>, i: int, f: spec_fn(Seq<char>) -> Option<nat>)
    requires
        0 <= i <= s.len(),
    ensures
        s.subrange(0, i).filter_map(f).len() <= s.filter_map(f).len(),
        forall|k: int|
            0 <= k < s.subrange(0, i).filter_map(f).len() ==> #[trigger] s.filter_map(f)[k]
                == s.subrange(0, i).filter_map(f)[k],
        i == s.len() ==> s.subrange(0, i).filter_map(f) == s.filter_map(f),
    decreases s.len() - i,
{
    if i < s.len() {
        lemma_filter_map_prefix(s, i + 1, f);
        let a = s.subrange(0, i);
        let b = s.subrange(0, i + 1);
        assert(b.drop_last() =~= a);
    } else {
        assert(s.subrange(0, i) =~= s);
    }
}

/// What the setup command answers.
pub enum SetupMessage {
    /// A reply to the command's message.
    Reply(String),
    /// An embed showing the channels.
    Embed { title: String, description: String, footer: String, color: u32 },
    /// No answer.
    Silent,
}

/// The title of the setup embed, naming the server when its name is known.
pub open spec fn setup_title(guild_name: Option<Seq<char>>) -> Seq<char> {
    "Current channel setup"@ + match guild_name {
        Some(n) => " for "@ + n,
        None => Seq::empty(),
    }
}

/// The description of the setup embed.
pub open spec fn setup_description(input: u64, output: u64) -> Seq<char> {
    "**Input Channel:** "@ + channel_mention(input) + "\n**Output Channel:** "@ + channel_mention(output)
}

/// The answer of the setup command for its outcome; `guild_name` is the
/// server's name when it is known.
pub fn setup_message(outcome: &SetupOutcome, guild_name: Option<&str>) -> (r: SetupMessage)
    ensures
        match *outcome {
            SetupOutcome::Updated => r matches SetupMessage::Reply(t) && t@ == "Successfully changed settings!"@,
            SetupOutcome::NeedTwoChannels => r matches SetupMessage::Reply(t) && t@ == "You need to mention 2 channels!"@,
            SetupOutcome::Nothing => r is Silent,
            SetupOutcome::ShowCurrent { input, output } => r matches SetupMessage::Embed { title, description, footer, color } && {
                &&& title@ == setup_title(match guild_name {
                    Some(n) => Some(n@),
                    None => None,
                })
                &&& description@ == setup_description(input, output)
                &&& footer@ == "Use !!setup [input-channel] [output-channel] to edit this"@
                &&& color == 15785176
            },
        },
{
    match outcome {
        SetupOutcome::Updated => SetupMessage::Reply(string_of("Successfully changed settings!")),
        SetupOutcome::NeedTwoChannels => SetupMessage::Reply(string_of("You need to mention 2 channels!")),
        SetupOutcome::Nothing => SetupMessage::Silent,
        SetupOutcome::ShowCurrent { input, output } => {
            let mut title = string_of("Current channel setup");
            if let Some(n) = guild_name {
                push_str(&mut title, " for ");
                push_str(&mut title, n);
            }
            let mut description = string_of("**Input Channel:** ");
            push_channel_mention(&mut description, *input);
            push_str(&mut description, "\n**Output Channel:** ");
            push_channel_mention(&mut description, *output);
            assert(description@ =~= setup_description(*input, *output));
            assert(title@ =~= setup_title(match guild_name {
                Some(n) => Some(n@),
                None => None,
            }));
            SetupMessage::Embed {
                title,
                description,
                footer: string_of("Use !!setup [input-channel] [output-channel] to edit this"),
                color: 15785176,
            }
        },
    }
}

// ---------------------------------------------------------------------------
// The arguments of a prefix command.

/// The arguments that `serenity`'s `Args::new(text, &[Delimiter::Single(' ')])`
/// splits `text` into, each taken by `Args::raw_quoted` with its surrounding
/// quotes removed.
pub uninterp spec fn spec_quoted_args(text: Seq<char>) -> Seq<Seq<char>>;

/// Splits a command's text into arguments as the prefix framework does:
/// `serenity::framework::standard::Args` with the space as delimiter, each
/// argument through `raw_quoted`, so that `"a b"` is one argument `a b`.
/// The split is named, not stated.
#[verifier::external_body]
fn quoted_args(text: &str) -> (r: Vec<String>)
    ensures
        views(r@) == spec_quoted_args(text@),
{
    let delimiters = [serenity::framework::standard::Delimiter::Single(' ')];
    serenity::framework::standard::Args::new(text, &delimiters).raw_quoted().map(|a| a.to_owned()).collect()
}

/// The arguments of a prefix command's text (what follows the command's
/// name), split as the prefix framework splits them.
pub fn command_args(text: &str) -> (r: Vec<String>)
    ensures
        views(r@) == spec_quoted_args(text@),
{
    quoted_args(text)
}

/// Runs the prefix command on the text that follows its name in the
/// message: the text is split into arguments as the framework does, then
/// handled as [`prefix_command`] says.
pub fn prefix_command_text(
    servers: &mut HashMap<u64, Server>,
    guild: u64,
    text: &str,
    default_prefix: &str,
) -> (r: PrefixReply)
    ensures
        ({
            let (m, content, as_embed, save) = prefix_command_spec(
                old(servers)@,
                guild,
                spec_quoted_args(text@),
                default_prefix@,
            );
            &&& final(servers)@.map_values(|s: Server| server_view(s)) == m
            &&& r.content@ == content
            &&& r.as_embed == as_embed
            &&& r.save == save
        }),
{
    let args = command_args(text);
    prefix_command(servers, guild, &args, default_prefix)
}

} // verus!
