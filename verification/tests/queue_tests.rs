use shishabot::queue::{
    push_process_status, queue_embed, queue_listing, replay_display_name_of, ProcessStatus,
    QueueEntry, QueueStage, QueuedReplay, ReplayStatus, StatusEmojis,
};

fn emojis() -> StatusEmojis {
    StatusEmojis { white_check_mark: "✅".to_string(), man_running: "🏃".to_string(), hourglass: "⏳".to_string() }
}

fn entry(user: u64, name: &str) -> QueueEntry {
    QueueEntry { user, replay_name: name.to_string() }
}

#[test]
fn empty_queue() {
    let e = queue_embed(&Vec::new(), ReplayStatus::Waiting, &emojis());
    assert_eq!(e.title, "Current queue");
    assert_eq!(e.description.as_deref(), Some("The queue is empty"));
    assert!(e.fields.is_empty());
    assert_eq!(queue_listing(&Vec::new(), QueueStage::Waiting), "The queue is empty");
}

#[test]
fn progress_and_upcoming() {
    let entries = vec![entry(1, "first"), entry(2, "second"), entry(3, "third")];
    let e = queue_embed(&entries, ReplayStatus::Rendering(42), &emojis());
    assert!(e.description.is_none());
    assert_eq!(e.fields.len(), 2);
    assert_eq!(e.fields[0].name, "Progress");
    assert_eq!(
        e.fields[0].value,
        "<@1>: first\n• Downloading: ✅\n• Rendering: 🏃 (42%)\n• Encoding: ⏳\n• Uploading: ⏳"
    );
    assert!(!e.fields[0].inline);
    assert_eq!(e.fields[1].name, "Upcoming");
    assert_eq!(e.fields[1].value, "`2.` <@2>: second\n`3.` <@3>: third\n");
    let e = queue_embed(&vec![entry(1, "only")], ReplayStatus::Uploading, &emojis());
    assert_eq!(e.fields.len(), 1);
    assert_eq!(
        e.fields[0].value,
        "<@1>: only\n• Downloading: ✅\n• Rendering: ✅\n• Encoding: ✅\n• Uploading: 🏃"
    );
    let e = queue_embed(&vec![entry(1, "x")], ReplayStatus::Downloading, &emojis());
    assert_eq!(
        e.fields[0].value,
        "<@1>: x\n• Downloading: 🏃\n• Rendering: ⏳\n• Encoding: ⏳\n• Uploading: ⏳"
    );
}

#[test]
fn step_states() {
    let mut s = String::new();
    push_process_status(&mut s, ProcessStatus::Running(Some(7)), &emojis());
    assert_eq!(s, "🏃 (7%)");
}

#[test]
fn prefix_queue_listing() {
    assert_eq!(replay_display_name_of("../Downloads/my_replay.osr"), "my replay");
    let entries = vec![
        QueuedReplay { path: "../Downloads/a_b.osr".to_string(), user: 5 },
        QueuedReplay { path: "../Downloads/c.osr".to_string(), user: 6 },
    ];
    assert_eq!(
        queue_listing(&entries, QueueStage::Processing),
        "1. a b queued by <@5> - Processing\n2. c queued by <@6> - Waiting\n"
    );
}
