//! What the queue commands show: the progress of the replay being processed
//! and the replays waiting behind it.

use vstd::prelude::*;

use crate::embed::{field, fields_view, EmbedFieldData};
use crate::text::{decimal, push_decimal, push_str, replace, replace_all};

verus! {

/// Where the replay at the head of the queue stands.
#[derive(Clone, Copy, Debug, PartialEq, Eq)]
pub enum ReplayStatus {
    Waiting,
    Downloading,
    /// Rendering, with the percentage done.
    Rendering(u8),
    /// Encoding, with the percentage done.
    Encoding(u8),
    Uploading,
}

/// How one step of processing a replay stands.
#[derive(Clone, Copy, Debug, PartialEq, Eq)]
pub enum ProcessStatus {
    Done,
    /// Running, with the percentage done when known.
    Running(Option<u8>),
    Waiting,
}

/// The emojis that stand for the states of a step.
pub struct StatusEmojis {
    pub white_check_mark: String,
    pub man_running: String,
    pub hourglass: String,
}

/// A replay in the queue: who queued it and its display name.
pub struct QueueEntry {
    pub user: u64,
    pub replay_name: String,
}

/// `<@user>`: a mention of a user.
pub open spec fn user_mention(user: u64) -> Seq<char> {
    seq!['<', '@'] + decimal(user as nat) + seq!['>']
}

/// The text of a step's state.
pub open spec fn process_status_text(p: ProcessStatus, e: StatusEmojis) -> Seq<char> {
    match p {
        ProcessStatus::Done => e.white_check_mark@,
        ProcessStatus::Running(Some(progress)) => e.man_running@ + seq![' ', '('] + decimal(
            progress as nat,
        ) + seq!['%', ')'],
        ProcessStatus::Running(None) => e.man_running@,
        ProcessStatus::Waiting => e.hourglass@,
    }
}

/// The state of the download step.
pub open spec fn downloading_status(s: ReplayStatus) -> ProcessStatus {
    if s == ReplayStatus::Downloading {
        ProcessStatus::Running(None)
    } else {
        ProcessStatus::Done
    }
}

/// The state of the rendering step.
pub open spec fn rendering_status(s: ReplayStatus) -> ProcessStatus {
    match s {
        ReplayStatus::Downloading => ProcessStatus::Waiting,
        ReplayStatus::Rendering(p) => ProcessStatus::Running(Some(p)),
        _ => ProcessStatus::Done,
    }
}

/// The state of the encoding step.
pub open spec fn encoding_status(s: ReplayStatus) -> ProcessStatus {
    match s {
        ReplayStatus::Encoding(p) => ProcessStatus::Running(Some(p)),
        ReplayStatus::Uploading => ProcessStatus::Done,
        _ => ProcessStatus::Waiting,
    }
}

/// The state of the upload step.
pub open spec fn uploading_status(s: ReplayStatus) -> ProcessStatus {
    if s == ReplayStatus::Uploading {
        ProcessStatus::Running(None)
    } else {
        ProcessStatus::Waiting
    }
}

/// Writes the text of a step's state.
pub fn push_process_status(out: &mut String, p: ProcessStatus, e: &StatusEmojis)
    ensures
        final(out)@ == old(out)@ + process_status_text(p, *e),
{
    match p {
        ProcessStatus::Done => push_str(out, e.white_check_mark.as_str()),
        ProcessStatus::Running(Some(progress)) => {
            push_str(out, e.man_running.as_str());
            push_str(out, " (");
            push_decimal(out, progress as u64);
            push_str(out, "%)");
            proof {
                reveal_strlit(" (");
                reveal_strlit("%)");
            }
            assert(out@ =~= old(out)@ + process_status_text(p, *e));
        },
        ProcessStatus::Running(None) => push_str(out, e.man_running.as_str()),
        ProcessStatus::Waiting => push_str(out, e.hourglass.as_str()),
    }
}

/// The text of the "Progress" field for the replay at the head of the queue.
pub open spec fn progress_value(head: QueueEntry, s: ReplayStatus, e: StatusEmojis) -> Seq<char> {
    user_mention(head.user) + seq![':', ' '] + head.replay_name@
        + seq!['\n', '•', ' '] + seq!['D', 'o', 'w', 'n', 'l', 'o', 'a', 'd', 'i', 'n', 'g', ':', ' ']
        + process_status_text(downloading_status(s), e)
        + seq!['\n', '•', ' '] + seq!['R', 'e', 'n', 'd', 'e', 'r', 'i', 'n', 'g', ':', ' ']
        + process_status_text(rendering_status(s), e)
        + seq!['\n', '•', ' '] + seq!['E', 'n', 'c', 'o', 'd', 'i', 'n', 'g', ':', ' ']
        + process_status_text(encoding_status(s), e)
        + seq!['\n', '•', ' '] + seq!['U', 'p', 'l', 'o', 'a', 'd', 'i', 'n', 'g', ':', ' ']
        + process_status_text(uploading_status(s), e)
}

/// The layout of the "Progress" field: the head replay's user and name,
/// then the four steps with the texts `d`, `r`, `en` and `u`.
pub open spec fn progress_layout(head: QueueEntry, d: Seq<char>, r: Seq<char>, en: Seq<char>, u: Seq<char>) -> Seq<char> {
    user_mention(head.user) + seq![':', ' '] + head.replay_name@
        + seq!['\n', '•', ' '] + seq!['D', 'o', 'w', 'n', 'l', 'o', 'a', 'd', 'i', 'n', 'g', ':', ' '] + d
        + seq!['\n', '•', ' '] + seq!['R', 'e', 'n', 'd', 'e', 'r', 'i', 'n', 'g', ':', ' '] + r
        + seq!['\n', '•', ' '] + seq!['E', 'n', 'c', 'o', 'd', 'i', 'n', 'g', ':', ' '] + en
        + seq!['\n', '•', ' '] + seq!['U', 'p', 'l', 'o', 'a', 'd', 'i', 'n', 'g', ':', ' '] + u
}

/// What the "Progress" field shows for each stage of the head replay: the
/// steps before the current one are done (check mark), the current one runs
/// (running man, with its percentage while rendering or encoding), the ones
/// after it wait (hourglass). A replay still waiting has nothing running:
/// downloading and rendering count as done, encoding and uploading wait.
pub proof fn law_queue_progress(head: QueueEntry, s: ReplayStatus, e: StatusEmojis)
    ensures
        ({
            let done = e.white_check_mark@;
            let run = e.man_running@;
            let wait = e.hourglass@;
            &&& s == ReplayStatus::Waiting ==> progress_value(head, s, e) == progress_layout(head, done, done, wait, wait)
            &&& s == ReplayStatus::Downloading ==> progress_value(head, s, e) == progress_layout(head, run, wait, wait, wait)
            &&& s == ReplayStatus::Uploading ==> progress_value(head, s, e) == progress_layout(head, done, done, done, run)
            &&& s matches ReplayStatus::Rendering(p) ==> progress_value(head, s, e) == progress_layout(
                head,
                done,
                run + seq![' ', '('] + decimal(p as nat) + seq!['%', ')'],
                wait,
                wait,
            )
            &&& s matches ReplayStatus::Encoding(p) ==> progress_value(head, s, e) == progress_layout(
                head,
                done,
                done,
                run + seq![' ', '('] + decimal(p as nat) + seq!['%', ')'],
                wait,
            )
        }),
{
}

/// One line of the "Upcoming" field: `` `idx.` <@user>: name `` and a newline.
pub open spec fn upcoming_line(idx: nat, entry: QueueEntry) -> Seq<char> {
    seq!['`'] + decimal(idx) + seq!['.', '`', ' '] + user_mention(entry.user) + seq![':', ' ']
        + entry.replay_name@ + seq!['\n']
}

/// The lines for `entries`, numbered from `first`.
pub open spec fn upcoming_lines(entries: Seq<QueueEntry>, first: nat) -> Seq<char>
    decreases entries.len(),
{
    if entries.len() == 0 {
        Seq::<char>::empty()
    } else {
        upcoming_lines(entries.drop_last(), first) + upcoming_line(
            (first + entries.len() - 1) as nat,
            entries.last(),
        )
    }
}

/// The content of the queue embed.
pub struct QueueEmbedContent {
    /// `Current queue`.
    pub title: String,
    /// Set when the queue is empty.
    pub description: Option<String>,
    pub fields: Vec<EmbedFieldData>,
}

/// The embed fields that the queue command shows: "Progress" for the head of
/// the queue and, when more replays wait, "Upcoming" with them numbered from 2.
pub open spec fn queue_fields_spec(entries: Seq<QueueEntry>, s: ReplayStatus, e: StatusEmojis) -> Seq<
    (Seq<char>, Seq<char>, bool),
> {
    let progress = (
        seq!['P', 'r', 'o', 'g', 'r', 'e', 's', 's'],
        progress_value(entries[0], s, e),
        false,
    );
    if entries.len() == 1 {
        seq![progress]
    } else {
        seq![
            progress,
            (
                seq!['U', 'p', 'c', 'o', 'm', 'i', 'n', 'g'],
                upcoming_lines(entries.subrange(1, entries.len() as int), 2),
                false,
            ),
        ]
    }
}

fn push_mention(out: &mut String, user: u64)
    ensures
        final(out)@ == old(out)@ + user_mention(user),
{
    push_str(out, "<@");
    push_decimal(out, user);
    push_str(out, ">");
    proof {
        reveal_strlit("<@");
        reveal_strlit(">");
    }
    assert(out@ =~= old(out)@ + user_mention(user));
}

fn progress_text(head: &QueueEntry, s: ReplayStatus, e: &StatusEmojis) -> (r: String)
    ensures
        r@ == progress_value(*head, s, *e),
{
    let mut out = String::new();
    push_mention(&mut out, head.user);
    push_str(&mut out, ": ");
    push_str(&mut out, head.replay_name.as_str());
    push_str(&mut out, "\n• Downloading: ");
    let downloading = if let ReplayStatus::Downloading = s {
        ProcessStatus::Running(None)
    } else {
        ProcessStatus::Done
    };
    push_process_status(&mut out, downloading, e);
    push_str(&mut out, "\n• Rendering: ");
    let rendering = match s {
        ReplayStatus::Downloading => ProcessStatus::Waiting,
        ReplayStatus::Rendering(progress) => ProcessStatus::Running(Some(progress)),
        _ => ProcessStatus::Done,
    };
    push_process_status(&mut out, rendering, e);
    push_str(&mut out, "\n• Encoding: ");
    let encoding = match s {
        ReplayStatus::Encoding(progress) => ProcessStatus::Running(Some(progress)),
        ReplayStatus::Uploading => ProcessStatus::Done,
        _ => ProcessStatus::Waiting,
    };
    push_process_status(&mut out, encoding, e);
    push_str(&mut out, "\n• Uploading: ");
    let uploading = if let ReplayStatus::Uploading = s {
        ProcessStatus::Running(None)
    } else {
        ProcessStatus::Waiting
    };
    push_process_status(&mut out, uploading, e);
    proof {
        reveal_strlit(": ");
        reveal_strlit("\n• Downloading: ");
        reveal_strlit("\n• Rendering: ");
        reveal_strlit("\n• Encoding: ");
        reveal_strlit("\n• Uploading: ");
    }
    assert(out@ =~= progress_value(*head, s, *e));
    out
}

fn push_upcoming_line(out: &mut String, idx: u64, entry: &QueueEntry)
    ensures
        final(out)@ == old(out)@ + upcoming_line(idx as nat, *entry),
{
    push_str(out, "`");
    push_decimal(out, idx);
    push_str(out, ".` ");
    push_mention(out, entry.user);
    push_str(out, ": ");
    push_str(out, entry.replay_name.as_str());
    push_str(out, "\n");
    proof {
        reveal_strlit("`");
        reveal_strlit(".` ");
        reveal_strlit(": ");
        reveal_strlit("\n");
    }
    assert(out@ =~= old(out)@ + upcoming_line(idx as nat, *entry));
}

/// Builds the queue embed: "The queue is empty" as description when nothing
/// waits, else the fields of [`queue_fields_spec`].
pub fn queue_embed(entries: &Vec<QueueEntry>, status: ReplayStatus, emojis: &StatusEmojis) -> (r:
    QueueEmbedContent)
    ensures
        r.title@ == "Current queue"@,
        entries@.len() == 0 ==> (r.description matches Some(d) && d@ == seq![
            'T', 'h', 'e', ' ', 'q', 'u', 'e', 'u', 'e', ' ', 'i', 's', ' ', 'e', 'm', 'p', 't', 'y'
        ] && r.fields@.len() == 0),
        entries@.len() > 0 ==> r.description is None && fields_view(r.fields@) == queue_fields_spec(
            entries@,
            status,
            *emojis,
        ),
{
    if entries.len() == 0 {
        proof {
            reveal_strlit("The queue is empty");
        }
        let d = String::from_str("The queue is empty");
        return QueueEmbedContent { title: String::from_str("Current queue"), description: Some(d), fields: Vec::new() };
    }
    let progress = progress_text(&entries[0], status, emojis);
    let mut fields: Vec<EmbedFieldData> = Vec::new();
    fields.push(field(String::from_str("Progress"), progress, false));
    proof {
        reveal_strlit("Progress");
    }
    if entries.len() > 1 {
        let mut value = String::new();
        let n = entries.len();
        let ghost rest = entries@.subrange(1, n as int);
        for i in 1..n
            invariant
                n == entries@.len(),
                rest == entries@.subrange(1, n as int),
                value@ == upcoming_lines(entries@.subrange(1, i as int), 2),
        {
            let ghost pre = entries@.subrange(1, i + 1);
            assert(pre.drop_last() =~= entries@.subrange(1, i as int));
            push_upcoming_line(&mut value, (i as u64) + 1, &entries[i]);
        }
        fields.push(field(String::from_str("Upcoming"), value, false));
        proof {
            reveal_strlit("Upcoming");
        }
        assert(fields_view(fields@) =~~= queue_fields_spec(entries@, status, *emojis));
    } else {
        assert(fields_view(fields@) =~~= queue_fields_spec(entries@, status, *emojis));
    }
    QueueEmbedContent { title: String::from_str("Current queue"), description: None, fields }
}


// ---------------------------------------------------------------------------
// The queue listing of the prefix command.

/// Where the replay at the head of the queue stands, as the prefix command
/// reports it.
#[derive(Clone, Copy, Debug, PartialEq, Eq)]
pub enum QueueStage {
    Waiting,
    Downloading,
    Processing,
    Uploading,
}

/// A replay in the queue of the prefix command: its file path and who queued it.
pub struct QueuedReplay {
    pub path: String,
    pub user: u64,
}

/// The name under which a replay file is listed: the path without the
/// `../Downloads/` directory and the `.osr` extension, underscores as spaces.
pub open spec fn replay_display_name(path: Seq<char>) -> Seq<char> {
    replace_all(
        replace_all(replace_all(path, "../Downloads/"@, ""@), "_"@, " "@),
        ".osr"@,
        ""@,
    )
}

/// The text of a stage.
pub open spec fn stage_text(stage: QueueStage) -> Seq<char> {
    match stage {
        QueueStage::Waiting => "Waiting"@,
        QueueStage::Downloading => "Downloading"@,
        QueueStage::Processing => "Processing"@,
        QueueStage::Uploading => "Uploading"@,
    }
}

/// One line of the listing: `idx. name queued by <@user> - stage`.
pub open spec fn listing_line(idx: nat, entry: QueuedReplay, stage: QueueStage) -> Seq<char> {
    decimal(idx) + ". "@ + replay_display_name(entry.path@) + " queued by "@ + user_mention(
        entry.user,
    ) + " - "@ + stage_text(if idx == 1 { stage } else { QueueStage::Waiting }) + "\n"@
}

/// The lines for the first `entries.len()` replays, numbered from 1.
pub open spec fn listing_lines(entries: Seq<QueuedReplay>, stage: QueueStage) -> Seq<char>
    decreases entries.len(),
{
    if entries.len() == 0 {
        Seq::<char>::empty()
    } else {
        listing_lines(entries.drop_last(), stage) + listing_line(
            entries.len(),
            entries.last(),
            stage,
        )
    }
}

/// The queue listing: "The queue is empty", or one line per replay.
pub open spec fn queue_listing_spec(entries: Seq<QueuedReplay>, stage: QueueStage) -> Seq<char> {
    if entries.len() == 0 {
        "The queue is empty"@
    } else {
        listing_lines(entries, stage)
    }
}

/// The display name of a replay file.
pub fn replay_display_name_of(path: &str) -> (r: String)
    ensures
        r@ == replay_display_name(path@),
{
    proof {
        reveal_strlit("../Downloads/");
        reveal_strlit("_");
        reveal_strlit(".osr");
    }
    let a = replace(path, "../Downloads/", "");
    let b = replace(a.as_str(), "_", " ");
    replace(b.as_str(), ".osr", "")
}

fn push_stage(out: &mut String, stage: QueueStage)
    ensures
        final(out)@ == old(out)@ + stage_text(stage),
{
    match stage {
        QueueStage::Waiting => push_str(out, "Waiting"),
        QueueStage::Downloading => push_str(out, "Downloading"),
        QueueStage::Processing => push_str(out, "Processing"),
        QueueStage::Uploading => push_str(out, "Uploading"),
    }
}

/// The text that the prefix queue command shows.
pub fn queue_listing(entries: &Vec<QueuedReplay>, stage: QueueStage) -> (r: String)
    requires
        entries@.len() < u64::MAX,
    ensures
        r@ == queue_listing_spec(entries@, stage),
{
    if entries.len() == 0 {
        return String::from_str("The queue is empty");
    }
    let mut out = String::new();
    let n = entries.len();
    for i in 0..n
        invariant
            n == entries@.len(),
            n < u64::MAX,
            out@ == listing_lines(entries@.subrange(0, i as int), stage),
    {
        let ghost pre = entries@.subrange(0, i + 1);
        assert(pre.drop_last() =~= entries@.subrange(0, i as int));
        let idx: u64 = (i as u64) + 1;
        let ghost o = out@;
        push_decimal(&mut out, idx);
        push_str(&mut out, ". ");
        let name = replay_display_name_of(entries[i].path.as_str());
        push_str(&mut out, name.as_str());
        push_str(&mut out, " queued by ");
        push_mention(&mut out, entries[i].user);
        push_str(&mut out, " - ");
        push_stage(&mut out, if idx == 1 { stage } else { QueueStage::Waiting });
        push_str(&mut out, "\n");
        assert(out@ =~= o + listing_line(idx as nat, entries@[i as int], stage));
    }
    assert(entries@.subrange(0, n as int) =~= entries@);
    out
}

} // verus!

