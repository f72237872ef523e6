//! The channel setup of a server for the slash commands: which channels
//! take replays, and which one receives the rendered videos.

use vstd::prelude::*;

use std::collections::HashSet;
use vstd::std_specs::hash::{group_hash_axioms, spec_hash_keys_iter};
use vstd::std_specs::iter::IteratorSpec;

use crate::render::may_configure_channels;
use crate::text::{decimal, push_decimal, push_str};

verus! {

/// A server's render channels.
pub struct GuildSettings {
    pub input_channels: HashSet<u64>,
    pub output_channel: Option<u64>,
}

/// The setup view subcommand.
#[derive(Clone, Copy, Debug)]
pub struct SetupView;

/// Whether a channel is added to or removed from the input channels.
#[derive(Clone, Copy, Debug, PartialEq, Eq, Structural)]
pub enum InputAction {
    Add,
    Remove,
}

/// The setup input subcommand.
#[derive(Clone, Copy, Debug)]
pub struct SetupInput {
    pub action: InputAction,
    pub channel: u64,
}

/// The setup output subcommand.
#[derive(Clone, Copy, Debug)]
pub struct SetupOutput {
    pub channel: u64,
}

/// The answer of a setup subcommand.
pub enum SetupReply {
    /// Shown as a plain embed.
    Done(String),
    /// Shown as an error; `ephemeral` when only the author sees it.
    Refused { content: String, ephemeral: bool },
}

/// A channel mention.
pub open spec fn channel_mention(c: u64) -> Seq<char> {
    "<#"@ + decimal(c as nat) + ">"@
}

pub(crate) fn push_channel_mention(out: &mut String, c: u64)
    ensures
        final(out)@ == old(out)@ + channel_mention(c),
{
    let ghost o = out@;
    push_str(out, "<#");
    push_decimal(out, c);
    push_str(out, ">");
    assert(out@ =~= o + channel_mention(c));
}

/// The input channels as a list of mentions separated by `, `.
pub open spec fn mention_list(cs: Seq<u64>) -> Seq<char>
    decreases cs.len(),
{
    if cs.len() == 0 {
        Seq::empty()
    } else if cs.len() == 1 {
        channel_mention(cs[0])
    } else {
        mention_list(cs.drop_last()) + ", "@ + channel_mention(cs.last())
    }
}

/// The text of the setup view: the input channels (or `None`) and the
/// output channel (or `None`); a server without settings has neither.
pub open spec fn setup_view_spec(settings: Option<(Seq<u64>, Option<u64>)>) -> Seq<char> {
    let inputs = match settings {
        Some((cs, _)) => if cs.len() == 0 {
            "None"@
        } else {
            mention_list(cs)
        },
        None => "None"@,
    };
    let output = match settings {
        Some((_, Some(c))) => channel_mention(c),
        _ => "None"@,
    };
    "Input channels: "@ + inputs + "\nOutput channel: "@ + output
}

/// Whether `r` is the setup view of the settings `s` (`None` when the server
/// has none), its input channels listed in some order, each once, as the
/// set hands them out.
pub open spec fn is_setup_view(r: Seq<char>, s: Option<(Set<u64>, Option<u64>)>) -> bool {
    match s {
        None => r == setup_view_spec(None),
        Some((cs, out)) => exists|order: Seq<u64>|
            #![trigger order.to_set()]
            order.to_set() == cs && order.no_duplicates() && r == setup_view_spec(
                Some((order, out)),
            ),
    }
}

/// The view of optional server settings.
pub open spec fn settings_view(s: Option<&GuildSettings>) -> Option<(Set<u64>, Option<u64>)> {
    match s {
        Some(g) => Some((g.input_channels@, g.output_channel)),
        None => None,
    }
}

/// The input channels in the order the set hands them out.
fn listed_channels(cs: &HashSet<u64>) -> (r: Vec<u64>)
    ensures
        r@.to_set() == cs@,
        r@.no_duplicates(),
{
    broadcast use group_hash_axioms;
    let ghost all = IteratorSpec::remaining(&spec_hash_keys_iter(cs));
    let mut v: Vec<u64> = Vec::new();
    for c in iter: cs.iter()
        invariant
            iter.seq() == all,
            v@ == all.take(iter.index()).map_values(|x: &u64| *x),
    {
        v.push(*c);
        assert(all.take(iter.index() + 1).map_values(|x: &u64| *x) =~= v@);
    }
    assert(all.take(all.len() as int) =~= all);
    assert(v@ =~= all.unref());
    v
}

/// The text of the setup view for a server's settings (`None` when the
/// server has none).
pub fn view(settings: Option<&GuildSettings>) -> (r: String)
    ensures
        is_setup_view(r@, settings_view(settings)),
{
    let mut out = String::new();
    push_str(&mut out, "Input channels: ");
    let mut listed = false;
    let mut order: Vec<u64> = Vec::new();
    if let Some(g) = settings {
        order = listed_channels(&g.input_channels);
        let n = order.len();
        if n > 0 {
            let ghost o = out@;
            for i in 0..n
                invariant
                    n == order@.len(),
                    n > 0,
                    out@ == o + mention_list(order@.subrange(0, i as int)),
            {
                let ghost pre = order@.subrange(0, i as int);
                let ghost next = order@.subrange(0, i + 1);
                assert(next.drop_last() =~= pre);
                if i > 0 {
                    push_str(&mut out, ", ");
                }
                push_channel_mention(&mut out, order[i]);
                assert(out@ =~= o + mention_list(next));
            }
            assert(order@.subrange(0, n as int) =~= order@);
            listed = true;
        }
    }
    if !listed {
        push_str(&mut out, "None");
    }
    push_str(&mut out, "\nOutput channel: ");
    let output = match settings {
        Some(g) => g.output_channel,
        None => None,
    };
    match output {
        Some(c) => push_channel_mention(&mut out, c),
        None => push_str(&mut out, "None"),
    }
    proof {
        match settings {
            Some(g) => {
                assert(out@ =~= setup_view_spec(Some((order@, g.output_channel))));
                assert(order@.to_set() == g.input_channels@);
            },
            None => {
                assert(out@ =~= setup_view_spec(None));
            },
        }
    }
    out
}

/// The refusal shown to a member without administrator rights.
pub open spec fn missing_permissions_message() -> Seq<char> {
    "You do not have the required permissions to perform this action!"@
}

fn missing_permissions() -> (r: SetupReply)
    ensures
        r matches SetupReply::Refused { content, ephemeral } && content@
            == missing_permissions_message() && ephemeral,
{
    let mut content = String::new();
    push_str(&mut content, "You do not have the required permissions to perform this action!");
    assert(content@ =~= missing_permissions_message());
    SetupReply::Refused { content, ephemeral: true }
}

/// Adds `c` to the input channels; true when it was not there yet.
pub fn add_input_channel(settings: &mut GuildSettings, c: u64) -> (r: bool)
    ensures
        final(settings).input_channels@ == old(settings).input_channels@.insert(c),
        final(settings).output_channel == old(settings).output_channel,
        r == !old(settings).input_channels@.contains(c),
{
    broadcast use group_hash_axioms;
    settings.input_channels.insert(c)
}

/// Removes `c` from the input channels; true when it was there.
pub fn remove_input_channel(settings: &mut GuildSettings, c: u64) -> (r: bool)
    ensures
        final(settings).input_channels@ == old(settings).input_channels@.remove(c),
        final(settings).output_channel == old(settings).output_channel,
        r == old(settings).input_channels@.contains(c),
{
    broadcast use group_hash_axioms;
    settings.input_channels.remove(&c)
}

/// The view of a reply: whether it is a success, its text, and whether
/// only the author sees it.
pub open spec fn reply_view(r: SetupReply) -> (bool, Seq<char>, bool) {
    match r {
        SetupReply::Done(c) => (true, c@, false),
        SetupReply::Refused { content, ephemeral } => (false, content@, ephemeral),
    }
}

/// The input channels and the reply after the setup input subcommand.
pub open spec fn input_spec(cs: Set<u64>, args: SetupInput, permissions: u64) -> (Set<u64>, (bool, Seq<char>, bool)) {
    if permissions & 8u64 == 0 {
        (cs, (false, missing_permissions_message(), true))
    } else {
        match args.action {
            InputAction::Add => (
                cs.insert(args.channel),
                (true, "Successfully added channel "@ + channel_mention(args.channel), false),
            ),
            InputAction::Remove => (
                cs.remove(args.channel),
                if cs.contains(args.channel) {
                    (true, "Successfully removed channel "@ + channel_mention(args.channel), false)
                } else {
                    (false, "That channel is not whitelisted"@, false)
                },
            ),
        }
    }
}

/// The output channel and the reply after the setup output subcommand.
pub open spec fn output_spec(current: Option<u64>, args: SetupOutput, permissions: u64) -> (Option<u64>, (bool, Seq<char>, bool)) {
    if permissions & 8u64 == 0 {
        (current, (false, missing_permissions_message(), true))
    } else {
        (
            Some(args.channel),
            (true, "Successfully specified "@ + channel_mention(args.channel) + " as output"@, false),
        )
    }
}

/// What the setup input subcommand does: refused without administrator
/// rights (bit 3 of `permissions`), else the channel is added or removed.
pub fn input(settings: &mut GuildSettings, args: SetupInput, permissions: u64) -> (r: SetupReply)
    ensures
        final(settings).output_channel == old(settings).output_channel,
        (final(settings).input_channels@, reply_view(r)) == input_spec(old(settings).input_channels@, args, permissions),
{
    if !may_configure_channels(permissions) {
        return missing_permissions();
    }
    match args.action {
        InputAction::Add => {
            add_input_channel(settings, args.channel);
            let mut content = String::new();
            push_str(&mut content, "Successfully added channel ");
            push_channel_mention(&mut content, args.channel);
            assert(content@ =~= "Successfully added channel "@ + channel_mention(args.channel));
            SetupReply::Done(content)
        },
        InputAction::Remove => {
            if remove_input_channel(settings, args.channel) {
                let mut content = String::new();
                push_str(&mut content, "Successfully removed channel ");
                push_channel_mention(&mut content, args.channel);
                assert(content@ =~= "Successfully removed channel "@ + channel_mention(args.channel));
                SetupReply::Done(content)
            } else {
                let mut content = String::new();
                push_str(&mut content, "That channel is not whitelisted");
                assert(content@ =~= "That channel is not whitelisted"@);
                SetupReply::Refused { content, ephemeral: false }
            }
        },
    }
}

/// What the setup output subcommand does: refused without administrator
/// rights, else the channel becomes the output channel.
pub fn output(settings: &mut GuildSettings, args: SetupOutput, permissions: u64) -> (r: SetupReply)
    ensures
        final(settings).input_channels@ == old(settings).input_channels@,
        (final(settings).output_channel, reply_view(r)) == output_spec(old(settings).output_channel, args, permissions),
{
    if !may_configure_channels(permissions) {
        return missing_permissions();
    }
    settings.output_channel = Some(args.channel);
    let mut content = String::new();
    push_str(&mut content, "Successfully specified ");
    push_channel_mention(&mut content, args.channel);
    push_str(&mut content, " as output");
    assert(content@ =~= "Successfully specified "@ + channel_mention(args.channel) + " as output"@);
    SetupReply::Done(content)
}

/// Adding a channel makes it an input channel; adding it again changes
/// nothing; removing a channel that was just added gives back the channels
/// from before; after a removal the channel is no input channel.
pub proof fn law_input_channels(cs: Set<u64>, c: u64)
    ensures
        cs.insert(c).contains(c),
        cs.insert(c).insert(c) == cs.insert(c),
        !cs.contains(c) ==> cs.insert(c).remove(c) == cs,
        !cs.remove(c).contains(c),
{
    assert(cs.insert(c).insert(c) =~= cs.insert(c));
    if !cs.contains(c) {
        assert(cs.insert(c).remove(c) =~= cs);
    }
}

} // verus!
