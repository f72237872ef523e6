//! The options of the smaller slash commands and the replies they give.

use vstd::prelude::*;

use crate::text::{
    decimal, parse_u64, parse_unsigned, push_decimal, push_str, split_char, split_pieces, string_of,
    views,
};

verus! {

/// A reply of a command.
pub enum Reply {
    /// Shown as a plain embed.
    Done(String),
    /// Shown as an error.
    Refused(String),
}

/// The view of a reply: whether it is a success, and its text.
pub open spec fn reply_view(r: Reply) -> (bool, Seq<char>) {
    match r {
        Reply::Done(c) => (true, c@),
        Reply::Refused(c) => (false, c@),
    }
}

// ---------------------------------------------------------------------------
// Blacklisting servers.

/// The blacklist command.
pub enum Blacklist {
    Server(BlacklistServer),
}

/// The server subcommands of the blacklist command.
pub enum BlacklistServer {
    Add(BlacklistServerAdd),
    Remove(BlacklistServerRemove),
}

/// Adds a server to the blacklist.
pub struct BlacklistServerAdd {
    /// The id of the server, as typed.
    pub guild_id: String,
    pub reason: Option<String>,
}

/// Removes a server from the blacklist.
pub struct BlacklistServerRemove {
    /// The id of the server, as typed.
    pub guild_id: String,
}

/// The refusal for a server id that is not a number.
pub open spec fn invalid_guild_id_message() -> Seq<char> {
    "Guild ID is invalid!"@
}

/// The server id that a blacklist subcommand was given: a `u64`, else the
/// refusal to show.
pub fn guild_id_arg(guild_id: &str) -> (r: Result<u64, String>)
    ensures
        match r {
            Ok(id) => parse_unsigned(guild_id@, u64::MAX as nat) == Some(id as nat),
            Err(m) => parse_unsigned(guild_id@, u64::MAX as nat) is None && m@ == invalid_guild_id_message(),
        },
{
    match parse_u64(guild_id) {
        Some(id) => Ok(id),
        None => Err(string_of("Guild ID is invalid!")),
    }
}

/// The reply once a server is blacklisted.
pub open spec fn blacklisted_message(guild_id: Seq<char>) -> Seq<char> {
    "Server `"@ + guild_id + "` successfully blacklisted"@
}

/// The reply once the server `guild_id` (as typed) is blacklisted.
pub fn blacklisted_text(guild_id: &str) -> (r: String)
    ensures
        r@ == blacklisted_message(guild_id@),
{
    let mut out = string_of("Server `");
    push_str(&mut out, guild_id);
    push_str(&mut out, "` successfully blacklisted");
    assert(out@ =~= blacklisted_message(guild_id@));
    out
}

/// The reply once the blacklist was asked to drop a server: whitelisted
/// when it was on the list (`found`), else not found.
pub open spec fn whitelist_reply_spec(guild_id: Seq<char>, found: bool) -> (bool, Seq<char>) {
    if found {
        (true, "Server `"@ + guild_id + "` successfully whitelisted"@)
    } else {
        (false, "Server `"@ + guild_id + "` not found"@)
    }
}

/// The reply of the remove subcommand for the server `guild_id` (as typed).
pub fn whitelist_reply(guild_id: &str, found: bool) -> (r: Reply)
    ensures
        reply_view(r) == whitelist_reply_spec(guild_id@, found),
{
    let mut out = string_of("Server `");
    push_str(&mut out, guild_id);
    if found {
        push_str(&mut out, "` successfully whitelisted");
        assert(out@ =~= "Server `"@ + guild_id@ + "` successfully whitelisted"@);
        Reply::Done(out)
    } else {
        push_str(&mut out, "` not found");
        assert(out@ =~= "Server `"@ + guild_id@ + "` not found"@);
        Reply::Refused(out)
    }
}

// ---------------------------------------------------------------------------
// Settings files.

/// The default subcommand of the settings command.
#[derive(Clone, Copy, Debug)]
pub struct SettingsDefault {
    pub confirm: SettingsConfirm,
}

/// Whether the user confirmed overwriting their settings.
#[derive(Clone, Copy, Debug, PartialEq, Eq, Structural)]
pub enum SettingsConfirm {
    Cancel,
    Confirm,
}

/// The reply when restoring the default settings was cancelled.
pub open spec fn default_cancelled_message() -> Seq<char> {
    "Restoring default settings was cancelled.\nBe sure to confirm if you want to overwrite your current settings with default values."@
}

/// The reply of the default subcommand when it does nothing: `None` when
/// the user confirmed, so that the default settings are copied.
pub fn default_cancelled(args: SettingsDefault) -> (r: Option<String>)
    ensures
        args.confirm == SettingsConfirm::Confirm <==> r is None,
        r matches Some(m) ==> m@ == default_cancelled_message(),
{
    match args.confirm {
        SettingsConfirm::Cancel => Some(
            string_of(
                "Restoring default settings was cancelled.\nBe sure to confirm if you want to overwrite your current settings with default values.",
            ),
        ),
        SettingsConfirm::Confirm => None,
    }
}

/// The refusal of the copy subcommand: a user cannot copy their own
/// settings. `None` when `author` and `user` differ.
pub fn copy_refusal(author: u64, user: u64) -> (r: Option<String>)
    ensures
        r is None <==> author != user,
        r matches Some(m) ==> m@ == ":clown:"@,
{
    if author == user {
        Some(string_of(":clown:"))
    } else {
        None
    }
}

/// The slash copy subcommand before anything is copied: a refusal, or
/// `None` when the settings file of `user` is to be copied for `author`.
/// A user cannot copy their own settings, nor those of a user without a
/// settings file (`user_has_settings`).
pub fn settings_copy_check(author: u64, user: u64, user_has_settings: bool) -> (r: Option<Reply>)
    ensures
        r is None <==> (author != user && user_has_settings),
        match r {
            None => author != user && user_has_settings,
            Some(reply) => reply_view(reply) == (
                false,
                if author == user {
                    ":clown:"@
                } else {
                    "That user has not configured their settings yet"@
                },
            ),
        },
{
    match copy_refusal(author, user) {
        Some(m) => Some(Reply::Refused(m)),
        None => if user_has_settings {
            None
        } else {
            Some(Reply::Refused(string_of("That user has not configured their settings yet")))
        },
    }
}

/// The reply of the slash copy subcommand once the file was copied
/// (`copied`) or the copy failed.
pub fn settings_copied_reply(copied: bool) -> (r: Reply)
    ensures
        reply_view(r) == if copied {
            (true, "Successfully copied settings!"@)
        } else {
            (false, "Failed to copy the settings file"@)
        },
{
    if copied {
        Reply::Done(string_of("Successfully copied settings!"))
    } else {
        Reply::Refused(string_of("Failed to copy the settings file"))
    }
}

/// The default subcommand before anything is copied: its reply, or `None`
/// when the default settings (which exist: `default_exists`) are to be
/// copied over the user's.
pub fn settings_default_check(args: SettingsDefault, default_exists: bool) -> (r: Option<Reply>)
    ensures
        r is None <==> (args.confirm == SettingsConfirm::Confirm && default_exists),
        match r {
            None => args.confirm == SettingsConfirm::Confirm && default_exists,
            Some(reply) => if args.confirm == SettingsConfirm::Cancel {
                reply_view(reply) == (true, default_cancelled_message())
            } else {
                reply_view(reply) == (false, "Could not find default settings"@)
            },
        },
{
    match default_cancelled(args) {
        Some(m) => Some(Reply::Done(m)),
        None => if default_exists {
            None
        } else {
            Some(Reply::Refused(string_of("Could not find default settings")))
        },
    }
}

/// The reply of the default subcommand once the default settings were
/// copied (`copied`) or the copy failed.
pub fn settings_default_reply(copied: bool) -> (r: Reply)
    ensures
        reply_view(r) == if copied {
            (true, "Successfully restored default settings!"@)
        } else {
            (false, "Failed to set default values"@)
        },
{
    if copied {
        Reply::Done(string_of("Successfully restored default settings!"))
    } else {
        Reply::Refused(string_of("Failed to set default values"))
    }
}

/// The reply of the prefix settings command's `copy` without a mention.
pub fn copy_without_mention_text() -> (r: &'static str)
    ensures
        r@ == "You need to mention someone in order to steal their settings!"@,
{
    "You need to mention someone in order to steal their settings!"
}

/// The replies of the prefix settings command's `copy`: a note when the
/// author's own file could not be removed first (`removed_own`), then the
/// confirmation once the mentioned user's file was copied (`copied`).
pub fn prefix_copy_messages(removed_own: bool, copied: bool) -> (r: Vec<String>)
    ensures
        views(r@) == (if removed_own {
            Seq::<Seq<char>>::empty()
        } else {
            seq!["Oops! I couldn't find your file! Please type !!settings to resolve this issue."@]
        }) + (if copied {
            seq!["Copied settings!"@]
        } else {
            Seq::<Seq<char>>::empty()
        }),
{
    let mut r: Vec<String> = Vec::new();
    if !removed_own {
        r.push(string_of("Oops! I couldn't find your file! Please type !!settings to resolve this issue."));
    }
    if copied {
        r.push(string_of("Copied settings!"));
    }
    assert(views(r@) =~= (if removed_own {
        Seq::<Seq<char>>::empty()
    } else {
        seq!["Oops! I couldn't find your file! Please type !!settings to resolve this issue."@]
    }) + (if copied {
        seq!["Copied settings!"@]
    } else {
        Seq::<Seq<char>>::empty()
    }));
    r
}

/// The reply of the prefix settings command once a `key value` edit was
/// applied and saved.
pub fn edited_setting_text() -> (r: &'static str)
    ensures
        r@ == "Edited setting successfully!"@,
{
    "Edited setting successfully!"
}

/// The reply of the prefix settings command when the settings could not be
/// read or saved.
pub fn edit_failed_text() -> (r: &'static str)
    ensures
        r@ == "something went wrong, blame mezo"@,
{
    "something went wrong, blame mezo"
}

/// The reply when a user has no settings file yet.
pub open spec fn no_settings_message(user: u64) -> Seq<char> {
    "User <@"@ + decimal(user as nat) + "> has no specified settings yet"@
}

/// The reply of the view subcommand for a user without settings.
pub fn no_settings_text(user: u64) -> (r: String)
    ensures
        r@ == no_settings_message(user),
{
    let mut out = string_of("User <@");
    push_decimal(&mut out, user);
    push_str(&mut out, "> has no specified settings yet");
    assert(out@ =~= no_settings_message(user));
    out
}

// ---------------------------------------------------------------------------
// Skins.

/// The remove subcommand of the skin command: the position (from 1) of the
/// skin in the list.
#[derive(Clone, Copy, Debug)]
pub struct SkinRemove {
    pub index: usize,
}

/// The list subcommand of the skin command.
#[derive(Clone, Copy, Debug)]
pub struct SkinList;

/// The reply of the skin remove subcommand: the removed skin's name, or
/// the number of skins when the position was out of range.
pub open spec fn skin_removed_spec(picked: Result<Seq<char>, nat>) -> (bool, Seq<char>) {
    match picked {
        Ok(name) => (true, "Successfully deleted skin `"@ + name + "`"@),
        Err(len) => (false, "Invalid skin index, must be between 1 and "@ + decimal(len)),
    }
}

/// The reply of the skin remove subcommand.
pub fn skin_removed_reply(picked: &Result<String, usize>) -> (r: Reply)
    ensures
        reply_view(r) == skin_removed_spec(
            match picked {
                Ok(n) => Ok(n@),
                Err(l) => Err(*l as nat),
            },
        ),
{
    match picked {
        Ok(name) => {
            let mut out = string_of("Successfully deleted skin `");
            push_str(&mut out, name.as_str());
            push_str(&mut out, "`");
            assert(out@ =~= "Successfully deleted skin `"@ + name@ + "`"@);
            Reply::Done(out)
        },
        Err(len) => {
            let mut out = string_of("Invalid skin index, must be between 1 and ");
            push_decimal(&mut out, *len as u64);
            assert(out@ =~= "Invalid skin index, must be between 1 and "@ + decimal(*len as nat));
            Reply::Refused(out)
        },
    }
}

/// The reply once an uploaded skin was added at list position `idx`.
pub open spec fn skin_added_message(idx: usize) -> Seq<char> {
    "Added skin to list at index `"@ + decimal(idx as nat) + "`"@
}

/// The reply once an uploaded skin was added.
pub fn skin_added_text(idx: usize) -> (r: String)
    ensures
        r@ == skin_added_message(idx),
{
    let mut out = string_of("Added skin to list at index `");
    push_decimal(&mut out, idx as u64);
    push_str(&mut out, "`");
    assert(out@ =~= skin_added_message(idx));
    out
}

// ---------------------------------------------------------------------------
// Commands without options.

/// The queue command.
#[derive(Clone, Copy, Debug)]
pub struct Queue;

/// The test command.
#[derive(Clone, Copy, Debug)]
pub struct Test;

/// The help command.
#[derive(Clone, Copy, Debug)]
pub struct Help;

/// The owner command.
#[derive(Clone, Copy, Debug)]
pub enum Owner {
    Cache(OwnerCache),
}

/// The cache subcommand of the owner command.
#[derive(Clone, Copy, Debug)]
pub struct OwnerCache;

/// The invite command.
#[derive(Clone, Copy, Debug)]
pub struct Invite;

/// The ping command.
#[derive(Clone, Copy, Debug)]
pub struct Ping;

/// The footer of the invite embed.
pub open spec fn invite_footer(prefix: Seq<char>) -> Seq<char> {
    "The initial prefix will be "@ + prefix
}

/// The footer of the invite embed for the bot's default prefix.
pub fn invite_footer_text(prefix: &str) -> (r: String)
    ensures
        r@ == invite_footer(prefix@),
{
    let mut out = string_of("The initial prefix will be ");
    push_str(&mut out, prefix);
    out
}

/// The reply of the ping command once the round trip took `elapsed_ms`.
pub open spec fn pong_message(elapsed_ms: u64) -> Seq<char> {
    ":ping_pong: Pong! ("@ + decimal(elapsed_ms as nat) + "ms)"@
}

/// The reply of the ping command.
pub fn pong_text(elapsed_ms: u64) -> (r: String)
    ensures
        r@ == pong_message(elapsed_ms),
{
    let mut out = string_of(":ping_pong: Pong! (");
    push_decimal(&mut out, elapsed_ms);
    push_str(&mut out, "ms)");
    assert(out@ =~= pong_message(elapsed_ms));
    out
}

/// The reply of the prefix ping command.
pub fn latency_text(elapsed_ms: u64) -> (r: String)
    ensures
        r@ == decimal(elapsed_ms as nat) + "ms"@,
{
    let mut out = String::new();
    push_decimal(&mut out, elapsed_ms);
    push_str(&mut out, "ms");
    assert(out@ =~= decimal(elapsed_ms as nat) + "ms"@);
    out
}

// ---------------------------------------------------------------------------
// The start command.

/// The first two words after the command in a start message (`content`
/// split on single spaces): the start time and the end time as typed.
pub fn start_time_texts(content: &str) -> (r: (Option<String>, Option<String>))
    ensures
        ({
            let p = split_pieces(content@, ' ');
            &&& match r.0 {
                Some(t) => p.len() > 1 && t@ == p[1],
                None => p.len() <= 1,
            }
            &&& match r.1 {
                Some(t) => p.len() > 2 && t@ == p[2],
                None => p.len() <= 2,
            }
        }),
{
    let pieces = split_char(content, ' ');
    let first = if pieces.len() > 1 {
        Some(string_of(pieces[1].as_str()))
    } else {
        None
    };
    let second = if pieces.len() > 2 {
        Some(string_of(pieces[2].as_str()))
    } else {
        None
    };
    (first, second)
}

/// The refusal of the start command without a start time.
pub open spec fn missing_start_message() -> Seq<char> {
    "You must enter the `[start-time]`!"@
}

/// What the start command makes of its two time points, each already read
/// (`Ok` with the time, `Err` with the message to reply): the reply that
/// refuses the command, else the start time and the end time, if any. A
/// missing start time with an end time cannot happen: the words are taken
/// in order, so the `requires` leaves it out. `T` is whatever the time
/// parser reads a time point into.
pub fn start_time_points<T>(first: Option<Result<T, String>>, second: Option<Result<T, String>>) -> (r:
    Result<(T, Option<T>), String>)
    requires
        !(first is None && second matches Some(Ok(_))),
    ensures
        match (first, second) {
            (None, None) => r matches Err(m) && m@ == missing_start_message(),
            (Some(Err(m)), _) => r matches Err(e) && e@ == m@,
            (_, Some(Err(m))) => r matches Err(e) && e@ == m@,
            (Some(Ok(start)), Some(Ok(end))) => r == Ok::<(T, Option<T>), String>((start, Some(end))),
            (Some(Ok(start)), None) => r == Ok::<(T, Option<T>), String>((start, None)),
            (None, Some(Ok(_))) => true,
        },
{
    match (first, second) {
        (None, None) => Err(string_of("You must enter the `[start-time]`!")),
        (Some(Err(m)), _) => Err(m),
        (_, Some(Err(m))) => Err(m),
        (Some(Ok(start)), Some(Ok(end))) => Ok((start, Some(end))),
        (Some(Ok(start)), None) => Ok((start, None)),
        (None, Some(Ok(_))) => {
            assert(false);
            Err(string_of("You must enter the `[start-time]`!"))
        },
    }
}

} // verus!
