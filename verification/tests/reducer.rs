use session_slots::commands::HostCommands;
use session_slots::ids::PathId;
use session_slots::messages::{ElmChannel, Message};
use session_slots::options::OutputFormat;
use session_slots::preview::{PreviewAction, PreviewEvent, PreviewFlow, PreviewPhase};
use session_slots::record::FileStatus;
use session_slots::session::SessionHandle;
use session_slots::state::{drain_messages, Effect, State};
use session_slots::store::{FileSlot, UiState};

#[test]
fn init_schedules_startup_effects() {
    let mut tasks: Vec<Effect> = Vec::new();
    let state = State::init(&mut tasks);
    assert!(matches!(tasks[0], Effect::RestoreFromBackend));
    assert!(matches!(tasks[1], Effect::FetchFormatDescriptions));
    assert_eq!(tasks.len(), 2);
    assert_eq!(state.input_path, "");
    assert_eq!(state.input_path_id, PathId::null());
    assert_eq!(state.format_info.len(), OutputFormat::all().len());
    assert_eq!(state.format_info[0].0, OutputFormat::TEXT);
    assert_eq!(state.output_options.format, OutputFormat::PDF);
    assert!(!state.wizard);
}

#[test]
fn update_set_input_path_records_effect() {
    let mut tasks: Vec<Effect> = Vec::new();
    let mut state = State::init(&mut tasks);
    tasks.clear();

    state.update(Message::SetInputPath("new/path.jsonlz4".to_string()), &mut tasks);
    assert_eq!(state.input_path, "new/path.jsonlz4");
    assert_eq!(tasks.len(), 1);
    match &tasks[0] {
        Effect::AssignInputPath { path } => assert_eq!(path, "new/path.jsonlz4"),
        other => panic!("unexpected effect {other:?}"),
    }
}

#[test]
fn update_load_new_data_snapshots_flow() {
    let mut tasks: Vec<Effect> = Vec::new();
    let mut state = State::init(&mut tasks);
    tasks.clear();

    state.update(
        Message::SyncInputPath("chosen.jsonlz4".to_string(), PathId::null()),
        &mut tasks,
    );
    state.update(
        Message::SetTabGroups {
            open: vec!["A".to_string()],
            closed: vec![],
            open_selected: vec![0],
            closed_selected: vec![],
        },
        &mut tasks,
    );
    assert!(tasks.is_empty());

    state.update(Message::LoadNewData, &mut tasks);
    assert_eq!(state.loaded_path, "chosen.jsonlz4");
    assert_eq!(tasks.len(), 1);
    match &tasks[0] {
        Effect::RunPreview { flow } => {
            assert_eq!(flow.id, state.loaded_path_id);
            assert_eq!(flow.open_window_groups, vec!["A".to_string()]);
            assert_eq!(flow.selected_open, vec![0]);
            assert_eq!(flow.phase, PreviewPhase::NotStarted);
        },
        other => panic!("unexpected effect {other:?}"),
    }
}

#[test]
fn update_write_links_builds_options() {
    let mut tasks: Vec<Effect> = Vec::new();
    let mut state = State::init(&mut tasks);
    tasks.clear();

    state.update(Message::SetOverwrite(true), &mut tasks);
    state.update(Message::SetOutputFormat(OutputFormat::HTML), &mut tasks);
    state.update(Message::WriteLinksToFile, &mut tasks);
    assert_eq!(tasks.len(), 1);
    match &tasks[0] {
        Effect::SaveLinks { generate, output } => {
            // No group selected: all open groups, no closed groups.
            assert_eq!(generate.open_group_indexes, None);
            assert_eq!(generate.closed_group_indexes, Some(vec![]));
            assert!(generate.sort_groups);
            assert!(output.overwrite);
            assert_eq!(output.format, OutputFormat::HTML);
        },
        other => panic!("unexpected effect {other:?}"),
    }

    tasks.clear();
    state.update(
        Message::SetSelectedTabGroups { open: vec![1], closed: vec![] },
        &mut tasks,
    );
    assert!(matches!(tasks[0], Effect::RunPreview { .. }));
    tasks.clear();
    state.update(Message::WriteLinksToFile, &mut tasks);
    match &tasks[0] {
        Effect::SaveLinks { generate, .. } => {
            assert_eq!(generate.open_group_indexes, Some(vec![1]));
        },
        other => panic!("unexpected effect {other:?}"),
    }
}

#[test]
fn drain_applies_messages_until_empty() {
    let mut tasks: Vec<Effect> = Vec::new();
    let mut state = State::init(&mut tasks);
    tasks.clear();
    let mut channel = ElmChannel::new();
    channel.send(Message::SetStatus("working".to_string()));
    channel.send(Message::SetPreview("links".to_string()));
    channel.send(Message::SetOverwrite(true));

    drain_messages(&mut state, &mut channel, &mut tasks);
    assert!(channel.queue.is_empty());
    assert_eq!(state.status, "working");
    assert_eq!(state.preview, "links");
    assert!(state.output_options.overwrite);
}

/// The full preview orchestration against an in-memory file: commit-first,
/// load, decompress, parse, render, with a status trail.
#[test]
fn preview_flow_walks_pipeline() {
    let commands = HostCommands;
    let mut ui = UiState::new();
    let p1 = commands.set_open_path(&mut ui, FileSlot::New, "p/sessionstore.jsonlz4".to_string());

    let mut sender = ElmChannel::new();
    let mut flow = PreviewFlow::new(p1, Vec::new(), Vec::new(), Vec::new(), Vec::new());

    // Start: the identifier lives in the New slot, so it is committed first.
    let action = flow.advance(&mut ui, PreviewEvent::Start, &mut sender);
    let path = match action {
        PreviewAction::ReadFile { id, path } => {
            assert_eq!(id, p1);
            path
        },
        other => panic!("unexpected action {other:?}"),
    };
    assert_eq!(path, "p/sessionstore.jsonlz4");
    let current = commands.get_info_for_slot(&ui, FileSlot::Current);
    assert_eq!(current.path_id, p1);
    let fresh = commands.get_info_for_slot(&ui, FileSlot::New);
    assert_ne!(fresh.path_id, p1);

    // The file was "read": compressed bytes arrive.
    let action = flow.advance(&mut ui, PreviewEvent::FileRead(Ok(vec![1, 2])), &mut sender);
    let data = match action {
        PreviewAction::Decompress { data, .. } => data,
        other => panic!("unexpected action {other:?}"),
    };
    assert_eq!(data, vec![1, 2]);

    // The codec "ran".
    let action = flow.advance(&mut ui, PreviewEvent::Decompressed(Ok(vec![3, 4])), &mut sender);
    let data = match action {
        PreviewAction::Parse { data, .. } => data,
        other => panic!("unexpected action {other:?}"),
    };
    assert_eq!(data, vec![3, 4]);

    // The parser "ran".
    let session = SessionHandle {
        open_groups: vec!["W1".to_string()],
        open_groups_sorted: vec!["W1".to_string()],
        closed_groups: vec![],
        closed_groups_sorted: vec![],
    };
    let action = flow.advance(&mut ui, PreviewEvent::Parsed(Ok(session)), &mut sender);
    let request = match action {
        PreviewAction::Render { request } => request,
        other => panic!("unexpected action {other:?}"),
    };
    assert_eq!(request.open.len(), 1);
    assert_eq!(request.open[0].name, "W1");
    assert!(request.closed.is_empty());

    // The renderer "ran".
    let action = flow.advance(
        &mut ui,
        PreviewEvent::Rendered(Ok("W1\n- link".to_string())),
        &mut sender,
    );
    assert!(matches!(action, PreviewAction::Finished));
    assert_eq!(flow.phase, PreviewPhase::Finished);

    // The record ended up parsed, and the message trail tells the story.
    let info = commands.get_info_for_slot(&ui, FileSlot::Current);
    assert_eq!(info.status, FileStatus::Parsed);

    let mut statuses: Vec<String> = Vec::new();
    let mut preview_texts: Vec<String> = Vec::new();
    let mut synced_input: Vec<PathId> = Vec::new();
    for msg in sender.queue {
        match msg {
            Message::SetStatus(s) => statuses.push(s),
            Message::SetPreview(s) => preview_texts.push(s),
            Message::SyncInputPath(_, id) => synced_input.push(id),
            _ => {},
        }
    }
    let status_refs: Vec<&str> = statuses.iter().map(|s| s.as_str()).collect();
    assert_eq!(
        status_refs,
        vec![
            "Reading input data",
            "Decompressing",
            "Parsing",
            "Generating output",
            "Successfully loaded session data!",
        ]
    );
    assert_eq!(preview_texts, vec!["".to_string(), "W1\n- link".to_string()]);
    assert_eq!(synced_input, vec![fresh.path_id]);
}

/// A quiet start: no path selected yet, so the flow only clears the
/// preview.
#[test]
fn preview_flow_quiet_when_nothing_loaded() {
    let mut ui = UiState::new();
    let mut sender = ElmChannel::new();
    let mut flow = PreviewFlow::new(
        PathId::null(),
        Vec::new(),
        Vec::new(),
        Vec::new(),
        Vec::new(),
    );
    let action = flow.advance(&mut ui, PreviewEvent::Start, &mut sender);
    assert!(matches!(action, PreviewAction::Finished));
    assert_eq!(sender.queue.len(), 1);
    assert!(matches!(&sender.queue[0], Message::SetPreview(s) if s.is_empty()));
}

/// A failed read surfaces as an error status.
#[test]
fn preview_flow_reports_read_failure() {
    let commands = HostCommands;
    let mut ui = UiState::new();
    let p1 = commands.set_open_path(&mut ui, FileSlot::Current, "gone.jsonlz4".to_string());

    let mut sender = ElmChannel::new();
    let mut flow = PreviewFlow::new(p1, Vec::new(), Vec::new(), Vec::new(), Vec::new());
    let action = flow.advance(&mut ui, PreviewEvent::Start, &mut sender);
    assert!(matches!(action, PreviewAction::ReadFile { .. }));

    let action = flow.advance(
        &mut ui,
        PreviewEvent::FileRead(Err("failed to open file at gone.jsonlz4: missing".to_string())),
        &mut sender,
    );
    assert!(matches!(action, PreviewAction::Finished));
    let last = sender.queue.last().unwrap();
    match last {
        Message::SetStatus(s) => {
            assert_eq!(s, "Error: failed to open file at gone.jsonlz4: missing");
        },
        other => panic!("unexpected message {other:?}"),
    }
}
