use session_slots::commands::HostCommands;
use session_slots::options::{GenerateOptions, OutputOptions};
use session_slots::profiles::{select_session_files, FoundSessionFile};
use session_slots::session::SessionHandle;
use session_slots::store::{FileSlot, UiState};

fn parsed_state() -> (UiState, session_slots::ids::DataId) {
    let commands = HostCommands;
    let mut state = UiState::new();
    let p = commands.set_open_path(&mut state, FileSlot::New, "s.json".to_string());
    let d = commands.set_data(&mut state, p, vec![1]).unwrap();
    let session = SessionHandle {
        open_groups: vec!["Charlie".to_string(), "Alpha".to_string(), "Bravo".to_string()],
        open_groups_sorted: vec![
            "Alpha".to_string(),
            "Bravo".to_string(),
            "Charlie".to_string(),
        ],
        closed_groups: vec!["Zulu".to_string(), "Yankee".to_string()],
        closed_groups_sorted: vec!["Yankee".to_string(), "Zulu".to_string()],
    };
    commands.finish_parse_session_data(&mut state, d, session).unwrap();
    (state, d)
}

/// Group enumeration labels every group with its index, in the order of the
/// requested sorting.
#[test]
fn groups_follow_sort_flag() {
    let commands = HostCommands;
    let (state, d) = parsed_state();

    let sorted = commands.get_groups_from_session(&state, d, true).unwrap();
    let names: Vec<&str> = sorted.open.iter().map(|g| g.name.as_str()).collect();
    assert_eq!(names, vec!["Alpha", "Bravo", "Charlie"]);
    let indexes: Vec<u32> = sorted.open.iter().map(|g| g.index).collect();
    assert_eq!(indexes, vec![0, 1, 2]);

    let unsorted = commands.get_groups_from_session(&state, d, false).unwrap();
    let names: Vec<&str> = unsorted.open.iter().map(|g| g.name.as_str()).collect();
    assert_eq!(names, vec!["Charlie", "Alpha", "Bravo"]);

    let closed: Vec<&str> = sorted.closed.iter().map(|g| g.name.as_str()).collect();
    assert_eq!(closed, vec!["Yankee", "Zulu"]);
}

/// An absent filter keeps every group; a present filter keeps exactly the
/// listed enumeration indexes, in enumeration order.
#[test]
fn link_selection_applies_filters() {
    let commands = HostCommands;
    let (state, d) = parsed_state();

    let all = commands
        .to_text_links(&state, d, &GenerateOptions::default())
        .unwrap();
    let names: Vec<&str> = all.open.iter().map(|g| g.name.as_str()).collect();
    assert_eq!(names, vec!["Alpha", "Bravo", "Charlie"]);
    let closed: Vec<&str> = all.closed.iter().map(|g| g.name.as_str()).collect();
    assert_eq!(closed, vec!["Yankee", "Zulu"]);

    let filtered = commands
        .to_text_links(
            &state,
            d,
            &GenerateOptions {
                open_group_indexes: Some(vec![2, 0]),
                closed_group_indexes: Some(vec![]),
                ..GenerateOptions::default()
            },
        )
        .unwrap();
    let names: Vec<&str> = filtered.open.iter().map(|g| g.name.as_str()).collect();
    // Enumeration order is preserved regardless of the filter's order.
    assert_eq!(names, vec!["Alpha", "Charlie"]);
    let indexes: Vec<u32> = filtered.open.iter().map(|g| g.index).collect();
    assert_eq!(indexes, vec![0, 2]);
    assert!(filtered.closed.is_empty());
    assert!(filtered.table_of_content);
    assert!(filtered.sort_groups);
}

/// The unsorted enumeration drives filtering when sorting is off.
#[test]
fn link_selection_unsorted() {
    let commands = HostCommands;
    let (state, d) = parsed_state();
    let req = commands
        .to_text_links(
            &state,
            d,
            &GenerateOptions {
                open_group_indexes: Some(vec![0]),
                closed_group_indexes: None,
                sort_groups: false,
                ..GenerateOptions::default()
            },
        )
        .unwrap();
    let names: Vec<&str> = req.open.iter().map(|g| g.name.as_str()).collect();
    assert_eq!(names, vec!["Charlie"]);
    let closed: Vec<&str> = req.closed.iter().map(|g| g.name.as_str()).collect();
    assert_eq!(closed, vec!["Zulu", "Yankee"]);
}

/// save_links bundles the configured save path, the selection and the
/// output options.
#[test]
fn save_request_carries_everything() {
    let commands = HostCommands;
    let (mut state, d) = parsed_state();
    commands.set_save_path(&mut state, "out/tabs".to_string());
    let req = commands
        .save_links(
            &state,
            d,
            &GenerateOptions::default(),
            &OutputOptions::default(),
        )
        .unwrap();
    assert_eq!(req.save_path, "out/tabs");
    assert_eq!(req.links.open.len(), 3);
    assert_eq!(req.output, OutputOptions::default());
}

fn candidate(name: &str) -> FoundSessionFile {
    FoundSessionFile {
        name: name.to_string(),
        file_path: format!("profile/{name}"),
    }
}

/// Existing candidates are kept in order; when none exists, the first
/// candidate is offered anyway.
#[test]
fn session_file_selection() {
    let candidates = vec![
        candidate("sessionstore.jsonlz4"),
        candidate("recovery.jsonlz4"),
        candidate("recovery.baklz4"),
        candidate("previous.jsonlz4"),
    ];

    let some = select_session_files(&candidates, &vec![false, true, false, true]);
    let names: Vec<&str> = some.iter().map(|f| f.name.as_str()).collect();
    assert_eq!(names, vec!["recovery.jsonlz4", "previous.jsonlz4"]);

    let none = select_session_files(&candidates, &vec![false, false, false, false]);
    let names: Vec<&str> = none.iter().map(|f| f.name.as_str()).collect();
    assert_eq!(names, vec!["sessionstore.jsonlz4"]);
    assert_eq!(none[0].file_path, "profile/sessionstore.jsonlz4");

    let all = select_session_files(&candidates, &vec![true, true, true, true]);
    assert_eq!(all.len(), 4);
}
