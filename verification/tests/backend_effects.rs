use session_slots::background::{begin_save_links, report_save_outcome, restore_view_state};
use session_slots::commands::HostCommands;
use session_slots::messages::{ElmChannel, Message};
use session_slots::options::{GenerateOptions, OutputOptions};
use session_slots::record::FileStatus;
use session_slots::session::SessionHandle;
use session_slots::store::{FileSlot, UiState};

/// Restoring from an empty store reports nothing.
#[test]
fn restore_from_empty_store_is_silent() {
    let mut state = UiState::new();
    let mut sender = ElmChannel::new();
    restore_view_state(&mut state, &mut sender);
    assert!(sender.queue.is_empty());
}

/// Restoring reports the save path, the New slot's path (dropping its
/// data), and the Current slot's path with a preview request.
#[test]
fn restore_reports_everything() {
    let commands = HostCommands;
    let mut state = UiState::new();
    commands.set_save_path(&mut state, "out/links".to_string());
    let p_cur = commands.set_open_path(&mut state, FileSlot::Current, "cur.json".to_string());
    let p_new = commands.set_open_path(&mut state, FileSlot::New, "new.jsonlz4".to_string());
    let d_new = commands.set_data(&mut state, p_new, vec![1, 2]).unwrap();

    let mut sender = ElmChannel::new();
    restore_view_state(&mut state, &mut sender);

    // The New slot's data was dropped to free memory.
    assert!(commands.get_info_for_data_id(&state, d_new).is_none());
    let new_info = commands.get_info_for_slot(&state, FileSlot::New);
    assert_eq!(new_info.status, FileStatus::Found);

    assert_eq!(sender.queue.len(), 4);
    assert!(matches!(&sender.queue[0], Message::SyncOutputPath(p) if p == "out/links"));
    match &sender.queue[1] {
        Message::SyncInputPath(p, id) => {
            assert_eq!(p, "new.jsonlz4");
            assert_eq!(*id, p_new);
        },
        other => panic!("unexpected message {other:?}"),
    }
    match &sender.queue[2] {
        Message::SyncLoadedPath(p, id) => {
            assert_eq!(p, "cur.json");
            assert_eq!(*id, p_cur);
        },
        other => panic!("unexpected message {other:?}"),
    }
    assert!(matches!(
        &sender.queue[3],
        Message::SetSelectedTabGroups { open, closed } if open.is_empty() && closed.is_empty()
    ));
}

/// Saving without a save path reports the dedicated failure status.
#[test]
fn save_without_path_fails_early() {
    let state = UiState::new();
    let mut sender = ElmChannel::new();
    let r = begin_save_links(
        &state,
        &GenerateOptions::default(),
        &OutputOptions::default(),
        &mut sender,
    );
    assert!(r.is_none());
    let statuses: Vec<&str> = sender
        .queue
        .iter()
        .filter_map(|m| match m {
            Message::SetStatus(s) => Some(s.as_str()),
            _ => None,
        })
        .collect();
    assert_eq!(
        statuses,
        vec!["Saving links", "Failed to save links: no save path selected"]
    );
}

/// Saving against a parsed Current record hands back the request, after the
/// two progress statuses.
#[test]
fn save_with_session_returns_request() {
    let commands = HostCommands;
    let mut state = UiState::new();
    commands.set_save_path(&mut state, "out/tabs".to_string());
    let p = commands.set_open_path(&mut state, FileSlot::Current, "s.json".to_string());
    let d = commands.set_data(&mut state, p, vec![1]).unwrap();
    let session = SessionHandle {
        open_groups: vec!["W".to_string()],
        open_groups_sorted: vec!["W".to_string()],
        closed_groups: vec![],
        closed_groups_sorted: vec![],
    };
    commands.finish_parse_session_data(&mut state, d, session).unwrap();

    let mut sender = ElmChannel::new();
    let r = begin_save_links(
        &state,
        &GenerateOptions::default(),
        &OutputOptions::default(),
        &mut sender,
    );
    let request = r.expect("request expected");
    assert_eq!(request.save_path, "out/tabs");
    assert_eq!(request.links.open.len(), 1);
    let statuses: Vec<&str> = sender
        .queue
        .iter()
        .filter_map(|m| match m {
            Message::SetStatus(s) => Some(s.as_str()),
            _ => None,
        })
        .collect();
    assert_eq!(statuses, vec!["Saving links", "Saving links to out/tabs"]);

    report_save_outcome(&mut sender, "out/tabs", Ok(()));
    assert!(matches!(
        sender.queue.last().unwrap(),
        Message::SetStatus(s) if s == "Successfully saved links to a file at: out/tabs"
    ));
    report_save_outcome(&mut sender, "out/tabs", Err("disk full".to_string()));
    assert!(matches!(
        sender.queue.last().unwrap(),
        Message::SetStatus(s) if s == "Failed to save links to file: disk full"
    ));
}

/// Saving before the session is parsed reports the command error text.
#[test]
fn save_before_parse_reports_error() {
    let commands = HostCommands;
    let mut state = UiState::new();
    commands.set_save_path(&mut state, "out".to_string());
    let p = commands.set_open_path(&mut state, FileSlot::Current, "s.json".to_string());
    commands.set_data(&mut state, p, vec![1]).unwrap();

    let mut sender = ElmChannel::new();
    let r = begin_save_links(
        &state,
        &GenerateOptions::default(),
        &OutputOptions::default(),
        &mut sender,
    );
    assert!(r.is_none());
    assert!(matches!(
        sender.queue.last().unwrap(),
        Message::SetStatus(s) if s == "Failed to save links to file: must deserialize JSON sessionstore data before converting tabs to links"
    ));
}
