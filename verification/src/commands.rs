//! The command layer: every operation the embedding program can perform on
//! the slot store.
//!
//! Commands that involve heavy outside work (reading a file, decompressing,
//! parsing, rendering) are split into a `begin` half, which validates the
//! identifier and hands out the inputs for that work, and a `finish` half,
//! which re-validates the identifier and commits the result only if the
//! identifier still resolves — the optimistic-concurrency discipline that
//! keeps a slow background task from overwriting an unrelated record. The
//! store's lock is held only across the command calls themselves, never
//! across the outside work.

use vstd::prelude::*;

use crate::errors::CommandError;
use crate::ids::{DataId, IdAllocator, PathId};
use crate::options::{GenerateOptions, GenerateOptionsView, OutputOptions};
use crate::paths::{path_has_lz4_extension, spec_is_lz4_path};
use crate::record::{spec_default_record, spec_info_of, FileInfo, FileState, FileStateView};
use crate::session::{
    enumerate_groups, indexes_view, select_groups, selected_upto, AllTabGroups, SessionHandle,
    SessionView, TabGroup,
};
use crate::store::{FileSlot, UiState, UiStateView};
use crate::util::copy_vec;

verus! {

/// Everything the link renderer needs for one rendering: the filtered
/// groups (open groups first, then closed groups, each list in enumeration
/// order) and the flags the caller chose.
#[derive(Debug, Clone)]
pub struct LinkRequest {
    pub open: Vec<TabGroup>,
    pub closed: Vec<TabGroup>,
    pub sort_groups: bool,
    pub table_of_content: bool,
    pub tree_style_tab_trees: bool,
    pub sidebery_trees: bool,
}

/// A validated request to write rendered links to the configured save path.
#[derive(Debug, Clone)]
pub struct SaveRequest {
    pub save_path: String,
    pub links: LinkRequest,
    pub output: OutputOptions,
}

/// The record a slot holds right after a path is assigned to it.
pub open spec fn spec_path_assigned_record(path: Seq<char>, id: u64) -> FileStateView {
    FileStateView { path_id: id, file_path: Some(path), ..spec_default_record() }
}

/// Effect of `set_open_path`: the slot is reset, a fresh path identifier is
/// allocated, and the path is stored.
pub open spec fn spec_set_open_path(s: UiStateView, slot: FileSlot, path: Seq<char>) -> UiStateView {
    UiStateView {
        path_next: (s.path_next + 1) as u64,
        ..s.with_slot_record(slot, spec_path_assigned_record(path, s.path_next))
    }
}

/// A record with its data forgotten: path identifier and file path survive,
/// everything else returns to the default.
pub open spec fn spec_forget_record(r: FileStateView) -> FileStateView {
    FileStateView { path_id: r.path_id, file_path: r.file_path, ..spec_default_record() }
}

/// Effect of `forget_data`: a no-op when the identifier is stale.
pub open spec fn spec_forget_data(s: UiStateView, id: u64) -> UiStateView {
    if s.resolves_data(id) {
        s.with_data_record(id, spec_forget_record(s.data_record(id)))
    } else {
        s
    }
}

/// Effect of `forget_path`: the matching record is fully reset; a no-op when
/// the identifier is stale.
pub open spec fn spec_forget_path(s: UiStateView, id: u64) -> UiStateView {
    if s.resolves_path(id) {
        s.with_path_record(id, spec_default_record())
    } else {
        s
    }
}

/// Effect of `commit_new_file`: Current becomes exactly the prior New
/// record; New keeps only the file path and receives a fresh path
/// identifier, so stale references to the old New-slot identifier become
/// invalid.
pub open spec fn spec_commit_new_file(s: UiStateView) -> UiStateView {
    UiStateView {
        current_file: s.new_file,
        new_file: FileStateView {
            path_id: s.path_next,
            file_path: s.new_file.file_path,
            ..spec_default_record()
        },
        path_next: (s.path_next + 1) as u64,
        ..s
    }
}

/// A record after data is stored into it: fresh data identifier, the
/// compressed flag inferred from the record's path, raw data replaced, any
/// parsed session dropped.
pub open spec fn spec_data_stored_record(
    r: FileStateView,
    data: Seq<u8>,
    data_id: u64,
) -> FileStateView {
    FileStateView {
        data_id: data_id,
        is_compressed: spec_is_lz4_path(r.file_path->Some_0),
        data: Some(data),
        session: None,
        ..r
    }
}

/// Effect of `set_data` on a resolving identifier whose record has a path.
pub open spec fn spec_set_data(s: UiStateView, id: u64, data: Seq<u8>) -> UiStateView {
    UiStateView {
        data_next: (s.data_next + 1) as u64,
        ..s.with_path_record(id, spec_data_stored_record(s.path_record(id), data, s.data_next))
    }
}

/// A record after decompression: same data identifier, flag cleared, bytes
/// replaced.
pub open spec fn spec_decompressed_record(r: FileStateView, data: Seq<u8>) -> FileStateView {
    FileStateView { is_compressed: false, data: Some(data), ..r }
}

/// Effect of `finish_decompress_data` on a resolving identifier.
pub open spec fn spec_finish_decompress(s: UiStateView, id: u64, data: Seq<u8>) -> UiStateView {
    s.with_data_record(id, spec_decompressed_record(s.data_record(id), data))
}

/// A record after parsing: the session is stored and the raw buffer freed.
pub open spec fn spec_parsed_record(r: FileStateView, session: SessionView) -> FileStateView {
    FileStateView { session: Some(session), data: None, ..r }
}

/// Effect of `finish_parse_session_data` on a resolving identifier.
pub open spec fn spec_finish_parse(s: UiStateView, id: u64, session: SessionView) -> UiStateView {
    s.with_data_record(id, spec_parsed_record(s.data_record(id), session))
}

/// `gs` enumerates `names`: one group per name, indexed in order.
pub open spec fn group_list_matches(gs: Seq<TabGroup>, names: Seq<Seq<char>>) -> bool {
    &&& gs.len() == names.len()
    &&& forall|j: int|
        0 <= j < gs.len() ==> #[trigger] gs[j]@.index == j as u32 && gs[j]@.name == names[j]
}

/// `gs` is the filtered selection from `names`: exactly the enumeration
/// indexes the filter keeps, in increasing order, each with its name.
pub open spec fn selection_matches(
    gs: Seq<TabGroup>,
    names: Seq<Seq<char>>,
    f: Option<Seq<u32>>,
) -> bool {
    let sel = selected_upto(names.len() as int, f);
    &&& gs.len() == sel.len()
    &&& forall|j: int|
        0 <= j < gs.len() ==> #[trigger] gs[j]@.index == sel[j] as u32 && gs[j]@.name
            == names[sel[j]]
}

/// The fields of a [`LinkRequest`] built from session `sv` under options
/// `o`.
pub open spec fn link_request_matches(
    req: LinkRequest,
    sv: SessionView,
    o: GenerateOptionsView,
) -> bool {
    &&& selection_matches(req.open@, sv.groups(true, o.sort_groups), o.open_group_indexes)
    &&& selection_matches(req.closed@, sv.groups(false, o.sort_groups), o.closed_group_indexes)
    &&& req.sort_groups == o.sort_groups
    &&& req.table_of_content == o.table_of_content
    &&& req.tree_style_tab_trees == o.tree_style_tab_trees
    &&& req.sidebery_trees == o.sidebery_trees
}

fn reset_record_keep_path(f: &mut FileState)
    ensures
        final(f)@ == spec_forget_record(old(f)@),
{
    f.data_id = DataId::null();
    f.is_compressed = true;
    f.data = None;
    f.session = None;
}

fn store_data(f: &mut FileState, alloc: &mut IdAllocator, data: Vec<u8>) -> (r: Result<
    DataId,
    CommandError,
>)
    requires
        old(alloc).wf(),
        old(alloc).can_allocate(),
    ensures
        final(alloc).wf(),
        old(f)@.file_path is None ==> r == Err::<DataId, CommandError>(
            CommandError::FileNotSelected,
        ) && final(f)@ == old(f)@ && final(alloc).spec_next() == old(alloc).spec_next(),
        old(f)@.file_path is Some ==> (r matches Ok(d) && d.spec_value() == old(alloc).spec_next()
            && final(alloc).spec_next() == old(alloc).spec_next() + 1 && final(f)@
            == spec_data_stored_record(old(f)@, data@, old(alloc).spec_next())),
{
    let is_comp = match &f.file_path {
        Some(p) => path_has_lz4_extension(p.as_str()),
        None => {
            return Err(CommandError::FileNotSelected);
        },
    };
    let d = DataId::new(alloc);
    f.data_id = d;
    f.is_compressed = is_comp;
    f.data = Some(data);
    f.session = None;
    Ok(d)
}

fn apply_decompressed(f: &mut FileState, data: Vec<u8>)
    ensures
        final(f)@ == spec_decompressed_record(old(f)@, data@),
{
    f.is_compressed = false;
    f.data = Some(data);
}

fn apply_parsed(f: &mut FileState, session: SessionHandle)
    ensures
        final(f)@ == spec_parsed_record(old(f)@, session@),
{
    f.session = Some(session);
    f.data = None;
}

/// The command layer. Stateless itself: every command takes the store it
/// operates on.
#[derive(Debug, Clone, Copy, Default)]
pub struct HostCommands;

impl HostCommands {
    /// The summary of the record a slot holds. Never fails.
    pub fn get_info_for_slot(&self, state: &UiState, slot: FileSlot) -> (r: FileInfo)
        ensures
            r@ == spec_info_of(state@.slot_record(slot)),
    {
        match slot {
            FileSlot::New => state.new_file.to_info(),
            FileSlot::Current => state.current_file.to_info(),
        }
    }

    /// The summary of the record a path identifier resolves to, if any.
    pub fn get_info_for_path_id(&self, state: &UiState, id: PathId) -> (r: Option<FileInfo>)
        ensures
            match r {
                Some(info) => state@.resolves_path(id.spec_value()) && info@ == spec_info_of(
                    state@.path_record(id.spec_value()),
                ),
                None => !state@.resolves_path(id.spec_value()),
            },
    {
        match state.get_file_for_path_id(id) {
            Some(f) => Some(f.to_info()),
            None => None,
        }
    }

    /// The summary of the record a data identifier resolves to, if any.
    pub fn get_info_for_data_id(&self, state: &UiState, id: DataId) -> (r: Option<FileInfo>)
        ensures
            match r {
                Some(info) => state@.resolves_data(id.spec_value()) && info@ == spec_info_of(
                    state@.data_record(id.spec_value()),
                ),
                None => !state@.resolves_data(id.spec_value()),
            },
    {
        match state.get_file_for_data_id(id) {
            Some(f) => Some(f.to_info()),
            None => None,
        }
    }

    /// Resets the slot's record, allocates a fresh path identifier, and
    /// stores the path. Never fails.
    pub fn set_open_path(&self, state: &mut UiState, slot: FileSlot, file_path: String) -> (r:
        PathId)
        requires
            old(state)@.wf(),
            old(state)@.can_alloc_path(),
        ensures
            final(state)@.wf(),
            r.spec_value() == old(state)@.path_next,
            final(state)@ == spec_set_open_path(old(state)@, slot, file_path@),
    {
        let id = PathId::new(&mut state.path_ids);
        let record = FileState {
            path_id: id,
            data_id: DataId::null(),
            file_path: Some(file_path),
            is_compressed: true,
            data: None,
            session: None,
        };
        match slot {
            FileSlot::New => {
                state.new_file = record;
            },
            FileSlot::Current => {
                state.current_file = record;
            },
        }
        id
    }

    /// Stores the output path used by `save_links`.
    pub fn set_save_path(&self, state: &mut UiState, file_path: String)
        requires
            old(state)@.wf(),
        ensures
            final(state)@.wf(),
            final(state)@ == (UiStateView { save_path: Some(file_path@), ..old(state)@ }),
    {
        state.save_path = Some(file_path);
    }

    /// The configured output path, if any.
    pub fn get_save_path(&self, state: &UiState) -> (r: Option<String>)
        ensures
            match r {
                Some(p) => state@.save_path == Some(p@),
                None => state@.save_path is None,
            },
    {
        match &state.save_path {
            Some(p) => Some(p.clone()),
            None => None,
        }
    }

    /// Resets the record the data identifier resolves to, preserving its
    /// path identifier and file path. A no-op when the identifier is stale.
    pub fn forget_data(&self, state: &mut UiState, id: DataId)
        requires
            old(state)@.wf(),
        ensures
            final(state)@.wf(),
            final(state)@ == spec_forget_data(old(state)@, id.spec_value()),
    {
        if id == DataId::null() {
            return;
        }
        if state.new_file.data_id == id {
            reset_record_keep_path(&mut state.new_file);
        } else if state.current_file.data_id == id {
            reset_record_keep_path(&mut state.current_file);
        }
    }

    /// Fully resets the record the path identifier resolves to. A no-op
    /// when the identifier is stale.
    pub fn forget_path(&self, state: &mut UiState, id: PathId)
        requires
            old(state)@.wf(),
        ensures
            final(state)@.wf(),
            final(state)@ == spec_forget_path(old(state)@, id.spec_value()),
    {
        if id == PathId::null() {
            return;
        }
        if state.new_file.path_id == id {
            state.new_file = FileState::default();
        } else if state.current_file.path_id == id {
            state.current_file = FileState::default();
        }
    }

    /// Commits the New slot into Current. Current becomes exactly the prior
    /// New record; New keeps the same file path but receives a fresh path
    /// identifier and is otherwise defaulted. Never fails.
    pub fn commit_new_file(&self, state: &mut UiState)
        requires
            old(state)@.wf(),
            old(state)@.can_alloc_path(),
        ensures
            final(state)@.wf(),
            final(state)@ == spec_commit_new_file(old(state)@),
    {
        let path_clone: Option<String> = match &state.new_file.file_path {
            Some(p) => Some(p.clone()),
            None => None,
        };
        let fresh = PathId::new(&mut state.path_ids);
        let mut replacement = FileState {
            path_id: fresh,
            data_id: DataId::null(),
            file_path: path_clone,
            is_compressed: true,
            data: None,
            session: None,
        };
        core::mem::swap(&mut state.new_file, &mut replacement);
        state.current_file = replacement;
    }

    /// Stores caller-supplied bytes as the record's data: allocates a fresh
    /// data identifier, infers the compressed flag from the record's path,
    /// and drops any parsed session.
    pub fn set_data(&self, state: &mut UiState, id: PathId, data: Vec<u8>) -> (r: Result<
        DataId,
        CommandError,
    >)
        requires
            old(state)@.wf(),
            old(state)@.can_alloc_data(),
        ensures
            final(state)@.wf(),
            !old(state)@.resolves_path(id.spec_value()) ==> r == Err::<DataId, CommandError>(
                CommandError::PathIdExpired,
            ) && final(state)@ == old(state)@,
            old(state)@.resolves_path(id.spec_value()) && old(state)@.path_record(
                id.spec_value(),
            ).file_path is None ==> r == Err::<DataId, CommandError>(CommandError::FileNotSelected)
                && final(state)@ == old(state)@,
            old(state)@.resolves_path(id.spec_value()) && old(state)@.path_record(
                id.spec_value(),
            ).file_path is Some ==> (r matches Ok(d) && d.spec_value() == old(state)@.data_next
                && final(state)@ == spec_set_data(old(state)@, id.spec_value(), data@)),
    {
        if id == PathId::null() {
            return Err(CommandError::PathIdExpired);
        }
        if state.new_file.path_id == id {
            store_data(&mut state.new_file, &mut state.data_ids, data)
        } else if state.current_file.path_id == id {
            store_data(&mut state.current_file, &mut state.data_ids, data)
        } else {
            Err(CommandError::PathIdExpired)
        }
    }

    /// First half of `load_data`: validates the path identifier and hands
    /// back the path whose file should be read. The read itself happens
    /// outside the store, off the lock.
    pub fn begin_load_data(&self, state: &UiState, id: PathId) -> (r: Result<String, CommandError>)
        ensures
            !state@.resolves_path(id.spec_value()) ==> r == Err::<String, CommandError>(
                CommandError::PathIdExpired,
            ),
            state@.resolves_path(id.spec_value()) && state@.path_record(
                id.spec_value(),
            ).file_path is None ==> r == Err::<String, CommandError>(CommandError::FileNotSelected),
            state@.resolves_path(id.spec_value()) && state@.path_record(
                id.spec_value(),
            ).file_path is Some ==> (r matches Ok(p) && p@ == state@.path_record(
                id.spec_value(),
            ).file_path->Some_0),
    {
        match state.get_file_for_path_id(id) {
            None => Err(CommandError::PathIdExpired),
            Some(f) => match &f.file_path {
                None => Err(CommandError::FileNotSelected),
                Some(p) => Ok(p.clone()),
            },
        }
    }

    /// Second half of `load_data`: commits bytes read from the file, exactly
    /// as `set_data` does, unless the path identifier expired while the file
    /// was being read.
    pub fn finish_load_data(&self, state: &mut UiState, id: PathId, data: Vec<u8>) -> (r: Result<
        DataId,
        CommandError,
    >)
        requires
            old(state)@.wf(),
            old(state)@.can_alloc_data(),
        ensures
            final(state)@.wf(),
            !old(state)@.resolves_path(id.spec_value()) ==> r == Err::<DataId, CommandError>(
                CommandError::PathIdExpiredWhileReading,
            ) && final(state)@ == old(state)@,
            old(state)@.resolves_path(id.spec_value()) && old(state)@.path_record(
                id.spec_value(),
            ).file_path is None ==> r == Err::<DataId, CommandError>(CommandError::FileNotSelected)
                && final(state)@ == old(state)@,
            old(state)@.resolves_path(id.spec_value()) && old(state)@.path_record(
                id.spec_value(),
            ).file_path is Some ==> (r matches Ok(d) && d.spec_value() == old(state)@.data_next
                && final(state)@ == spec_set_data(old(state)@, id.spec_value(), data@)),
    {
        match self.set_data(state, id, data) {
            Ok(d) => Ok(d),
            Err(CommandError::PathIdExpired) => Err(CommandError::PathIdExpiredWhileReading),
            Err(e) => Err(e),
        }
    }

    /// First half of `decompress_data`: validates that the identifier
    /// resolves, that data is loaded, and that it is still compressed, then
    /// hands back a copy of the compressed bytes for the codec.
    pub fn begin_decompress_data(&self, state: &UiState, id: DataId) -> (r: Result<
        Vec<u8>,
        CommandError,
    >)
        ensures
            !state@.resolves_data(id.spec_value()) ==> r == Err::<Vec<u8>, CommandError>(
                CommandError::DataIdExpired,
            ),
            state@.resolves_data(id.spec_value()) && state@.data_record(id.spec_value()).data
                is None ==> r == Err::<Vec<u8>, CommandError>(CommandError::DataNotLoaded),
            state@.resolves_data(id.spec_value()) && state@.data_record(id.spec_value()).data
                is Some && !state@.data_record(id.spec_value()).is_compressed ==> r == Err::<
                Vec<u8>,
                CommandError,
            >(CommandError::AlreadyUncompressed),
            state@.resolves_data(id.spec_value()) && state@.data_record(id.spec_value()).data
                is Some && state@.data_record(id.spec_value()).is_compressed ==> (r matches Ok(b)
                && b@ == state@.data_record(id.spec_value()).data->Some_0),
    {
        match state.get_file_for_data_id(id) {
            None => Err(CommandError::DataIdExpired),
            Some(f) => match &f.data {
                None => Err(CommandError::DataNotLoaded),
                Some(d) => {
                    if !f.is_compressed {
                        Err(CommandError::AlreadyUncompressed)
                    } else {
                        Ok(copy_vec(d))
                    }
                },
            },
        }
    }

    /// Second half of `decompress_data`: commits the decompressed bytes —
    /// same data identifier, compressed flag cleared — unless the identifier
    /// expired while the codec ran.
    pub fn finish_decompress_data(&self, state: &mut UiState, id: DataId, decompressed: Vec<u8>)
        -> (r: Result<(), CommandError>)
        requires
            old(state)@.wf(),
        ensures
            final(state)@.wf(),
            !old(state)@.resolves_data(id.spec_value()) ==> r == Err::<(), CommandError>(
                CommandError::DataIdExpiredWhileDecompressing,
            ) && final(state)@ == old(state)@,
            old(state)@.resolves_data(id.spec_value()) ==> r == Ok::<(), CommandError>(())
                && final(state)@ == spec_finish_decompress(
                old(state)@,
                id.spec_value(),
                decompressed@,
            ),
    {
        if id == DataId::null() {
            return Err(CommandError::DataIdExpiredWhileDecompressing);
        }
        if state.new_file.data_id == id {
            apply_decompressed(&mut state.new_file, decompressed);
            Ok(())
        } else if state.current_file.data_id == id {
            apply_decompressed(&mut state.current_file, decompressed);
            Ok(())
        } else {
            Err(CommandError::DataIdExpiredWhileDecompressing)
        }
    }

    /// First half of `parse_session_data`: validates that the identifier
    /// resolves, that data is loaded, and that it is already uncompressed,
    /// then hands back a copy of the bytes for the parser.
    pub fn begin_parse_session_data(&self, state: &UiState, id: DataId) -> (r: Result<
        Vec<u8>,
        CommandError,
    >)
        ensures
            !state@.resolves_data(id.spec_value()) ==> r == Err::<Vec<u8>, CommandError>(
                CommandError::DataIdExpired,
            ),
            state@.resolves_data(id.spec_value()) && state@.data_record(id.spec_value()).data
                is None ==> r == Err::<Vec<u8>, CommandError>(CommandError::DataNotLoaded),
            state@.resolves_data(id.spec_value()) && state@.data_record(id.spec_value()).data
                is Some && state@.data_record(id.spec_value()).is_compressed ==> r == Err::<
                Vec<u8>,
                CommandError,
            >(CommandError::StillCompressed),
            state@.resolves_data(id.spec_value()) && state@.data_record(id.spec_value()).data
                is Some && !state@.data_record(id.spec_value()).is_compressed ==> (r matches Ok(b)
                && b@ == state@.data_record(id.spec_value()).data->Some_0),
    {
        match state.get_file_for_data_id(id) {
            None => Err(CommandError::DataIdExpired),
            Some(f) => match &f.data {
                None => Err(CommandError::DataNotLoaded),
                Some(d) => {
                    if f.is_compressed {
                        Err(CommandError::StillCompressed)
                    } else {
                        Ok(copy_vec(d))
                    }
                },
            },
        }
    }

    /// Second half of `parse_session_data`: commits the parsed session and
    /// frees the raw buffer, unless the identifier expired while the parser
    /// ran.
    pub fn finish_parse_session_data(&self, state: &mut UiState, id: DataId, session: SessionHandle)
        -> (r: Result<(), CommandError>)
        requires
            old(state)@.wf(),
            session@.wf(),
        ensures
            final(state)@.wf(),
            !old(state)@.resolves_data(id.spec_value()) ==> r == Err::<(), CommandError>(
                CommandError::DataIdExpiredWhileParsing,
            ) && final(state)@ == old(state)@,
            old(state)@.resolves_data(id.spec_value()) ==> r == Ok::<(), CommandError>(())
                && final(state)@ == spec_finish_parse(old(state)@, id.spec_value(), session@),
    {
        if id == DataId::null() {
            return Err(CommandError::DataIdExpiredWhileParsing);
        }
        if state.new_file.data_id == id {
            apply_parsed(&mut state.new_file, session);
            Ok(())
        } else if state.current_file.data_id == id {
            apply_parsed(&mut state.current_file, session);
            Ok(())
        } else {
            Err(CommandError::DataIdExpiredWhileParsing)
        }
    }

    /// The open and closed window groups of the parsed session the
    /// identifier resolves to, each labelled with its enumeration index.
    pub fn get_groups_from_session(&self, state: &UiState, id: DataId, sort_groups: bool) -> (r:
        Result<AllTabGroups, CommandError>)
        requires
            state@.wf(),
        ensures
            !state@.resolves_data(id.spec_value()) ==> r == Err::<AllTabGroups, CommandError>(
                CommandError::DataIdExpired,
            ),
            state@.resolves_data(id.spec_value()) && state@.data_record(id.spec_value()).session
                is None ==> r == Err::<AllTabGroups, CommandError>(
                CommandError::SessionNotParsedForGroups,
            ),
            state@.resolves_data(id.spec_value()) && state@.data_record(id.spec_value()).session
                is Some ==> (r matches Ok(g) && {
                let sv = state@.data_record(id.spec_value()).session->Some_0;
                &&& group_list_matches(g.open@, sv.groups(true, sort_groups))
                &&& group_list_matches(g.closed@, sv.groups(false, sort_groups))
            }),
    {
        match state.get_file_for_data_id(id) {
            None => Err(CommandError::DataIdExpired),
            Some(f) => match &f.session {
                None => Err(CommandError::SessionNotParsedForGroups),
                Some(s) => {
                    let open = if sort_groups {
                        enumerate_groups(&s.open_groups_sorted)
                    } else {
                        enumerate_groups(&s.open_groups)
                    };
                    let closed = if sort_groups {
                        enumerate_groups(&s.closed_groups_sorted)
                    } else {
                        enumerate_groups(&s.closed_groups)
                    };
                    Ok(AllTabGroups { open, closed })
                },
            },
        }
    }

    /// Validates the identifier and computes the filtered group selection
    /// for rendering link text: open groups first, then closed groups, each
    /// filtered by the caller's optional index set in enumeration order. The
    /// session library renders the selection outside the store.
    pub fn to_text_links(&self, state: &UiState, id: DataId, generate_options: &GenerateOptions)
        -> (r: Result<LinkRequest, CommandError>)
        requires
            state@.wf(),
        ensures
            !state@.resolves_data(id.spec_value()) ==> r == Err::<LinkRequest, CommandError>(
                CommandError::DataIdExpired,
            ),
            state@.resolves_data(id.spec_value()) && state@.data_record(id.spec_value()).session
                is None ==> r == Err::<LinkRequest, CommandError>(
                CommandError::SessionNotParsedForLinks,
            ),
            state@.resolves_data(id.spec_value()) && state@.data_record(id.spec_value()).session
                is Some ==> (r matches Ok(req) && link_request_matches(
                req,
                state@.data_record(id.spec_value()).session->Some_0,
                generate_options@,
            )),
    {
        match state.get_file_for_data_id(id) {
            None => Err(CommandError::DataIdExpired),
            Some(f) => match &f.session {
                None => Err(CommandError::SessionNotParsedForLinks),
                Some(s) => {
                    let open_names = if generate_options.sort_groups {
                        &s.open_groups_sorted
                    } else {
                        &s.open_groups
                    };
                    let closed_names = if generate_options.sort_groups {
                        &s.closed_groups_sorted
                    } else {
                        &s.closed_groups
                    };
                    let open = select_groups(open_names, &generate_options.open_group_indexes);
                    let closed = select_groups(
                        closed_names,
                        &generate_options.closed_group_indexes,
                    );
                    let req = LinkRequest {
                        open,
                        closed,
                        sort_groups: generate_options.sort_groups,
                        table_of_content: generate_options.table_of_content,
                        tree_style_tab_trees: generate_options.tree_style_tab_trees,
                        sidebery_trees: generate_options.sidebery_trees,
                    };
                    proof {
                        assert(selection_matches(
                            req.open@,
                            open_names.deep_view(),
                            indexes_view(generate_options.open_group_indexes),
                        ));
                        assert(selection_matches(
                            req.closed@,
                            closed_names.deep_view(),
                            indexes_view(generate_options.closed_group_indexes),
                        ));
                    }
                    Ok(req)
                },
            },
        }
    }

    /// Validates the save path and the identifier and computes the filtered
    /// group selection for writing rendered links to the save file. The
    /// rendering and the write happen outside the store.
    pub fn save_links(
        &self,
        state: &UiState,
        id: DataId,
        generate_options: &GenerateOptions,
        output_options: &OutputOptions,
    ) -> (r: Result<SaveRequest, CommandError>)
        requires
            state@.wf(),
        ensures
            state@.save_path is None ==> r == Err::<SaveRequest, CommandError>(
                CommandError::NoSavePath,
            ),
            state@.save_path is Some && !state@.resolves_data(id.spec_value()) ==> r == Err::<
                SaveRequest,
                CommandError,
            >(CommandError::DataIdExpired),
            state@.save_path is Some && state@.resolves_data(id.spec_value()) && state@.data_record(
                id.spec_value(),
            ).session is None ==> r == Err::<SaveRequest, CommandError>(
                CommandError::SessionNotParsedForLinks,
            ),
            state@.save_path is Some && state@.resolves_data(id.spec_value()) && state@.data_record(
                id.spec_value(),
            ).session is Some ==> (r matches Ok(req) && req.save_path@ == state@.save_path->Some_0
                && req.output == *output_options && link_request_matches(
                req.links,
                state@.data_record(id.spec_value()).session->Some_0,
                generate_options@,
            )),
    {
        let save_path = match &state.save_path {
            None => {
                return Err(CommandError::NoSavePath);
            },
            Some(p) => p.clone(),
        };
        let links = match self.to_text_links(state, id, generate_options) {
            Ok(l) => l,
            Err(e) => {
                return Err(e);
            },
        };
        Ok(SaveRequest { save_path, links, output: *output_options })
    }
}

} // verus!

