use session_slots::commands::HostCommands;
use session_slots::ids::PathId;
use session_slots::messages::{ElmChannel, Message};
use session_slots::options::{GenerateOptions, OutputFormat, OutputOptions};
use session_slots::preview::{PreviewAction, PreviewEvent, PreviewFlow};
use session_slots::session::{string_vecs_equal, SessionHandle};
use session_slots::state::{Effect, State};
use session_slots::store::{FileSlot, UiState};

#[test]
fn format_names_and_order() {
    let all = OutputFormat::all();
    assert_eq!(all.len(), 15);
    assert_eq!(all[0], OutputFormat::TEXT);
    assert_eq!(all[0].as_str(), "text");
    assert_eq!(OutputFormat::PDF.as_str(), "pdf");
    assert_eq!(OutputFormat::PDF_WK_HTML_LINKED.as_str(), "pdf-wk-html-linked");
    assert_eq!(OutputFormat::default(), OutputFormat::PDF);
}

#[test]
fn option_defaults() {
    let g = GenerateOptions::default();
    assert_eq!(g.open_group_indexes, None);
    assert_eq!(g.closed_group_indexes, None);
    assert!(g.sort_groups && g.table_of_content && g.tree_style_tab_trees && g.sidebery_trees);

    let o = OutputOptions::default();
    assert!(!o.overwrite && !o.create_folder);
    assert_eq!(o.format, OutputFormat::PDF);
}

#[test]
fn info_display_shows_path_or_nothing() {
    let commands = HostCommands;
    let mut state = UiState::new();
    let empty = commands.get_info_for_slot(&state, FileSlot::New);
    assert_eq!(empty.display_string(), "");

    commands.set_open_path(&mut state, FileSlot::New, "p/q.json".to_string());
    let info = commands.get_info_for_slot(&state, FileSlot::New);
    assert_eq!(info.display_string(), "p/q.json");
}

#[test]
fn string_vec_comparison() {
    let a = vec!["x".to_string(), "y".to_string()];
    let b = vec!["x".to_string(), "y".to_string()];
    let c = vec!["x".to_string(), "z".to_string()];
    let d = vec!["x".to_string()];
    assert!(string_vecs_equal(&a, &b));
    assert!(!string_vecs_equal(&a, &c));
    assert!(!string_vecs_equal(&a, &d));
}

#[test]
fn remaining_update_variants() {
    let mut tasks: Vec<Effect> = Vec::new();
    let mut state = State::init(&mut tasks);
    tasks.clear();

    state.update(Message::OpenWizard, &mut tasks);
    assert!(state.wizard);
    assert!(matches!(tasks.last(), Some(Effect::FindProfiles)));

    state.update(Message::CloseWizard, &mut tasks);
    assert!(!state.wizard);

    state.update(Message::SetOutputPath("out".to_string()), &mut tasks);
    assert_eq!(state.save_path, "out");
    assert!(matches!(tasks.last(), Some(Effect::StoreSavePath { .. })));

    state.update(Message::SyncOutputPath("backend-out".to_string()), &mut tasks);
    assert_eq!(state.save_path, "backend-out");

    state.update(Message::SetPreview("text".to_string()), &mut tasks);
    state.update(Message::CopyLinksToClipboard, &mut tasks);
    match tasks.last() {
        Some(Effect::CopyToClipboard { text }) => assert_eq!(text, "text"),
        other => panic!("unexpected effect {other:?}"),
    }

    state.update(Message::UpdateInputPath(PathId::null()), &mut tasks);
    assert!(matches!(tasks.last(), Some(Effect::QueryInputPath { .. })));

    state.update(Message::SetCreateFolder(true), &mut tasks);
    assert!(state.output_options.create_folder);

    state.update(Message::LoadInputPath("wizard/pick.jsonlz4".to_string()), &mut tasks);
    assert_eq!(state.input_path, "wizard/pick.jsonlz4");
    assert!(matches!(tasks.last(), Some(Effect::AssignInputPathAndLoad { .. })));
}

/// When the data is already loaded and parsed, the preview skips straight
/// to groups and rendering, and a changed group list resets the filters.
#[test]
fn preview_skips_to_render_when_parsed() {
    let commands = HostCommands;
    let mut ui = UiState::new();
    let p = commands.set_open_path(&mut ui, FileSlot::Current, "s.json".to_string());
    let d = commands.set_data(&mut ui, p, vec![1]).unwrap();
    let session = SessionHandle {
        open_groups: vec!["New window".to_string()],
        open_groups_sorted: vec!["New window".to_string()],
        closed_groups: vec![],
        closed_groups_sorted: vec![],
    };
    commands.finish_parse_session_data(&mut ui, d, session).unwrap();

    let mut sender = ElmChannel::new();
    // The flow believes other group names were current, with a selection.
    let mut flow = PreviewFlow::new(
        p,
        vec!["Old window".to_string()],
        Vec::new(),
        vec![0],
        Vec::new(),
    );
    let action = flow.advance(&mut ui, PreviewEvent::Start, &mut sender);
    let request = match action {
        PreviewAction::Render { request } => request,
        other => panic!("unexpected action {other:?}"),
    };
    // The changed list cleared the selection, so every open group renders.
    assert_eq!(request.open.len(), 1);
    assert_eq!(request.open[0].name, "New window");

    // The group-list message carries the new names with empty selections.
    let group_msgs: Vec<&Message> = sender
        .queue
        .iter()
        .filter(|m| matches!(m, Message::SetTabGroups { .. }))
        .collect();
    assert_eq!(group_msgs.len(), 1);
    match group_msgs[0] {
        Message::SetTabGroups { open, closed, open_selected, closed_selected } => {
            assert_eq!(open, &vec!["New window".to_string()]);
            assert!(closed.is_empty());
            assert!(open_selected.is_empty());
            assert!(closed_selected.is_empty());
        },
        _ => unreachable!(),
    }
}

/// A selection kept by an unchanged group list filters the rendered groups.
#[test]
fn preview_keeps_matching_selection() {
    let commands = HostCommands;
    let mut ui = UiState::new();
    let p = commands.set_open_path(&mut ui, FileSlot::Current, "s.json".to_string());
    let d = commands.set_data(&mut ui, p, vec![1]).unwrap();
    let session = SessionHandle {
        open_groups: vec!["A".to_string(), "B".to_string()],
        open_groups_sorted: vec!["A".to_string(), "B".to_string()],
        closed_groups: vec![],
        closed_groups_sorted: vec![],
    };
    commands.finish_parse_session_data(&mut ui, d, session).unwrap();

    let mut sender = ElmChannel::new();
    let mut flow = PreviewFlow::new(
        p,
        vec!["A".to_string(), "B".to_string()],
        Vec::new(),
        vec![1],
        Vec::new(),
    );
    let action = flow.advance(&mut ui, PreviewEvent::Start, &mut sender);
    let request = match action {
        PreviewAction::Render { request } => request,
        other => panic!("unexpected action {other:?}"),
    };
    assert_eq!(request.open.len(), 1);
    assert_eq!(request.open[0].name, "B");
    assert_eq!(request.open[0].index, 1);
}
