//! The preview orchestration: the composite sequence that walks one file
//! from a selected path to rendered link text, one outside-work step at a
//! time.
//!
//! The flow itself makes every decision and performs every store access;
//! the embedding program only executes the returned [`PreviewAction`]
//! (reading a file, running the codec, the parser or the renderer) and
//! feeds the outcome back in as the next [`PreviewEvent`]. If the requested
//! identifier still lives in the New slot, the flow first commits New into
//! Current, so selecting another file afterwards cannot discard the data
//! already in flight. At every step a status message is emitted.

use vstd::prelude::*;
use vstd::string::StringExecFns;

use crate::commands::{
    link_request_matches, spec_commit_new_file, spec_finish_decompress, spec_finish_parse,
    spec_set_data, HostCommands, LinkRequest,
};
use crate::errors::CommandError;
use crate::ids::{DataId, PathId};
use crate::messages::{
    msg_is_clear_tab_groups, msg_is_error_status, msg_is_set_preview, msg_is_set_status,
    msg_is_sync_input_path, msg_is_tab_groups, no_preview_message, path_text_of, ElmChannel,
    Message,
};
use crate::options::{filtered_generate_options, GenerateOptions};
use crate::paths::spec_is_lz4_path;
use crate::record::{spec_status, FileStatus};
use crate::session::{string_vecs_equal, SessionHandle, TabGroup};
use crate::store::{FileSlot, UiState};
use crate::util::copy_vec;

verus! {

/// Where the flow stands: which outcome it is waiting for.
#[derive(Debug, Clone, Copy, PartialEq, Eq, Structural)]
pub enum PreviewPhase {
    NotStarted,
    AwaitRead,
    AwaitDecompress,
    AwaitParse,
    AwaitRender,
    Finished,
}

/// The outside work the embedding program must perform next, or the end of
/// the flow.
#[derive(Debug)]
pub enum PreviewAction {
    /// Read the whole file at `path` and report `FileRead`.
    ReadFile { id: PathId, path: String },
    /// Decompress these bytes and report `Decompressed`.
    Decompress { id: DataId, data: Vec<u8> },
    /// Parse these bytes into a session and report `Parsed`.
    Parse { id: DataId, data: Vec<u8> },
    /// Render this selection as link text and report `Rendered`.
    Render { request: LinkRequest },
    /// The flow is over; every message has been sent.
    Finished,
}

/// The outcome of the outside work the flow asked for. Error texts carry
/// the outside context (paths, codec and parser detail) and surface as an
/// error status.
#[derive(Debug)]
pub enum PreviewEvent {
    Start,
    FileRead(Result<Vec<u8>, String>),
    Decompressed(Result<Vec<u8>, String>),
    Parsed(Result<SessionHandle, String>),
    Rendered(Result<String, String>),
}

/// The phase that each action leaves the flow in.
pub open spec fn action_phase(a: PreviewAction) -> PreviewPhase {
    match a {
        PreviewAction::ReadFile { .. } => PreviewPhase::AwaitRead,
        PreviewAction::Decompress { .. } => PreviewPhase::AwaitDecompress,
        PreviewAction::Parse { .. } => PreviewPhase::AwaitParse,
        PreviewAction::Render { .. } => PreviewPhase::AwaitRender,
        PreviewAction::Finished => PreviewPhase::Finished,
    }
}

/// Which event a flow in this phase is prepared to take.
pub open spec fn phase_accepts(phase: PreviewPhase, e: PreviewEvent) -> bool {
    match e {
        PreviewEvent::Start => phase == PreviewPhase::NotStarted,
        PreviewEvent::FileRead(_) => phase == PreviewPhase::AwaitRead,
        PreviewEvent::Decompressed(_) => phase == PreviewPhase::AwaitDecompress,
        PreviewEvent::Parsed(_) => phase == PreviewPhase::AwaitParse,
        PreviewEvent::Rendered(_) => phase == PreviewPhase::AwaitRender,
    }
}

/// One run of the preview orchestration: the snapshot it was started with
/// and how far it has come.
#[derive(Debug)]
pub struct PreviewFlow {
    /// The path identifier whose file is being previewed.
    pub id: PathId,
    /// Snapshot of the group names known when the flow started.
    pub open_window_groups: Vec<String>,
    pub closed_window_groups: Vec<String>,
    /// Snapshot of the selected group filters; cleared when new bytes are
    /// loaded or the group lists change.
    pub selected_open: Vec<u32>,
    pub selected_closed: Vec<u32>,
    /// The data identifier the flow settled on, once known.
    pub data_id: DataId,
    /// The record's status when the flow decided what work remains.
    pub status_snapshot: FileStatus,
    pub phase: PreviewPhase,
}

impl PreviewFlow {
    /// A flow about to start, carrying the reducer's snapshot.
    pub fn new(
        id: PathId,
        open_window_groups: Vec<String>,
        closed_window_groups: Vec<String>,
        selected_open: Vec<u32>,
        selected_closed: Vec<u32>,
    ) -> (r: PreviewFlow)
        ensures
            r.id == id,
            r.open_window_groups == open_window_groups,
            r.closed_window_groups == closed_window_groups,
            r.selected_open == selected_open,
            r.selected_closed == selected_closed,
            r.data_id.spec_value() == 0,
            r.phase == PreviewPhase::NotStarted,
    {
        PreviewFlow {
            id,
            open_window_groups,
            closed_window_groups,
            selected_open,
            selected_closed,
            data_id: DataId::null(),
            status_snapshot: FileStatus::Empty,
            phase: PreviewPhase::NotStarted,
        }
    }

    /// Ends the flow with an error status carrying `detail`.
    fn fail(&mut self, sender: &mut ElmChannel, detail: String) -> (a: PreviewAction)
        ensures
            a is Finished,
            final(self).phase == PreviewPhase::Finished,
            final(self).id == old(self).id,
            final(self).data_id == old(self).data_id,
            final(self).selected_open == old(self).selected_open,
            final(self).selected_closed == old(self).selected_closed,
            final(sender).queue@.len() == old(sender).queue@.len() + 1,
            forall|k: int|
                0 <= k < old(sender).queue@.len() ==> #[trigger] final(sender).queue@[k] == old(sender).queue@[k],
            msg_is_error_status(final(sender).queue@.last(), detail@),
            no_preview_message(final(sender).queue@, old(sender).queue@.len() as int),
    {
        let text = "Error: ".to_owned().concat(detail.as_str());
        sender.send(Message::SetStatus(text));
        self.phase = PreviewPhase::Finished;
        PreviewAction::Finished
    }

    /// Decides the remaining work from the status snapshot: decompress if
    /// the data is compressed, parse if not yet parsed, else enumerate
    /// groups and render.
    fn proceed_after_load(&mut self, state: &UiState, sender: &mut ElmChannel) -> (a:
        PreviewAction)
        requires
            state@.wf(),
            state@.resolves_data(old(self).data_id.spec_value()),
            old(self).status_snapshot == spec_status(
                state@.data_record(old(self).data_id.spec_value()),
            ),
        ensures
            old(self).status_snapshot == FileStatus::Compressed ==> a matches
                PreviewAction::Decompress { .. },
            old(self).status_snapshot == FileStatus::Uncompressed ==> a matches
                PreviewAction::Parse { .. },
            old(self).status_snapshot == FileStatus::Parsed ==> a matches PreviewAction::Render {
                ..
            },
            old(self).status_snapshot == FileStatus::Found || old(self).status_snapshot
                == FileStatus::Empty ==> (a is Finished && msg_is_error_status(
                final(sender).queue@.last(),
                "file data not loaded"@,
            )),
            no_preview_message(final(sender).queue@, old(sender).queue@.len() as int),
            final(self).phase == action_phase(a),
            final(self).id == old(self).id,
            final(self).data_id == old(self).data_id,
            final(self).selected_open@ == old(self).selected_open@ || final(self).selected_open@.len() == 0,
            final(self).selected_closed@ == old(self).selected_closed@ || final(self).selected_closed@.len() == 0,
            final(sender).queue@.len() >= old(sender).queue@.len(),
            forall|k: int|
                0 <= k < old(sender).queue@.len() ==> #[trigger] final(sender).queue@[k] == old(sender).queue@[k],
            !(a matches PreviewAction::ReadFile { .. }),
            a matches PreviewAction::Decompress { id, data } ==> (id == old(self).data_id
                && state@.resolves_data(id.spec_value()) && state@.data_record(
                id.spec_value(),
            ).data == Some(data@) && state@.data_record(id.spec_value()).is_compressed
                && msg_is_set_status(final(sender).queue@.last(), "Decompressing"@)),
            a matches PreviewAction::Parse { id, data } ==> (id == old(self).data_id
                && state@.resolves_data(id.spec_value()) && state@.data_record(
                id.spec_value(),
            ).data == Some(data@) && !state@.data_record(id.spec_value()).is_compressed
                && msg_is_set_status(final(sender).queue@.last(), "Parsing"@)),
            a matches PreviewAction::Render { request } ==> (state@.resolves_data(
                final(self).data_id.spec_value(),
            ) && state@.data_record(final(self).data_id.spec_value()).session is Some
                && link_request_matches(
                request,
                state@.data_record(final(self).data_id.spec_value()).session->Some_0,
                filtered_generate_options(
                    final(self).selected_open@,
                    final(self).selected_closed@,
                ),
            ) && msg_is_set_status(final(sender).queue@.last(), "Generating output"@)),
    {
        let commands = HostCommands;
        if self.status_snapshot == FileStatus::Compressed {
            sender.send(Message::SetStatus("Decompressing".to_owned()));
            match commands.begin_decompress_data(state, self.data_id) {
                Ok(data) => {
                    self.phase = PreviewPhase::AwaitDecompress;
                    PreviewAction::Decompress { id: self.data_id, data }
                },
                Err(e) => self.fail(sender, e.message()),
            }
        } else if !(self.status_snapshot == FileStatus::Parsed) {
            sender.send(Message::SetStatus("Parsing".to_owned()));
            match commands.begin_parse_session_data(state, self.data_id) {
                Ok(data) => {
                    self.phase = PreviewPhase::AwaitParse;
                    PreviewAction::Parse { id: self.data_id, data }
                },
                Err(e) => self.fail(sender, e.message()),
            }
        } else {
            self.groups_and_render(state, sender)
        }
    }

    /// Enumerates the session's groups, resets the group filters when the
    /// known name lists changed, and prepares the render request.
    fn groups_and_render(&mut self, state: &UiState, sender: &mut ElmChannel) -> (a: PreviewAction)
        requires
            state@.wf(),
        ensures
            final(self).phase == action_phase(a),
            final(self).id == old(self).id,
            final(self).data_id == old(self).data_id,
            final(self).selected_open@ == old(self).selected_open@ || final(self).selected_open@.len() == 0,
            final(self).selected_closed@ == old(self).selected_closed@ || final(self).selected_closed@.len() == 0,
            final(sender).queue@.len() >= old(sender).queue@.len(),
            forall|k: int|
                0 <= k < old(sender).queue@.len() ==> #[trigger] final(sender).queue@[k] == old(sender).queue@[k],
            a is Finished || a matches PreviewAction::Render { .. },
            state@.resolves_data(old(self).data_id.spec_value()) && state@.data_record(
                old(self).data_id.spec_value(),
            ).session is Some ==> a matches PreviewAction::Render { .. },
            no_preview_message(final(sender).queue@, old(sender).queue@.len() as int),
            a matches PreviewAction::Render { request } ==> (state@.resolves_data(
                final(self).data_id.spec_value(),
            ) && state@.data_record(final(self).data_id.spec_value()).session is Some
                && link_request_matches(
                request,
                state@.data_record(final(self).data_id.spec_value()).session->Some_0,
                filtered_generate_options(
                    final(self).selected_open@,
                    final(self).selected_closed@,
                ),
            ) && msg_is_set_status(final(sender).queue@.last(), "Generating output"@)),
            // When the session's group names differ from the names the flow
            // knew, the filters are reset and the caller is notified of the
            // new lists.
            a matches PreviewAction::Render { .. } ==> ({
                let sv = state@.data_record(final(self).data_id.spec_value()).session->Some_0;
                if sv.groups(true, true) != old(self).open_window_groups.deep_view() || sv.groups(
                    false,
                    true,
                ) != old(self).closed_window_groups.deep_view() {
                    &&& final(self).selected_open@.len() == 0
                    &&& final(self).selected_closed@.len() == 0
                    &&& msg_is_tab_groups(
                        final(sender).queue@[old(sender).queue@.len() as int],
                        sv.groups(true, true),
                        sv.groups(false, true),
                    )
                } else {
                    final(self).selected_open@ == old(self).selected_open@ && final(self).selected_closed@ == old(self).selected_closed@
                }
            }),
    {
        let commands = HostCommands;
        let groups = match commands.get_groups_from_session(state, self.data_id, true) {
            Ok(g) => g,
            Err(e) => {
                return self.fail(sender, e.message());
            },
        };
        let open_names = names_of(&groups.open);
        let closed_names = names_of(&groups.closed);
        proof {
            let sv = state@.data_record(self.data_id.spec_value()).session->Some_0;
            assert forall|j: int| 0 <= j < sv.groups(true, true).len() implies open_names.deep_view()[j] == sv.groups(true, true)[j] by {
                assert(groups.open@[j]@.index == j as u32);
                assert(groups.open@[j]@.name == sv.groups(true, true)[j]);
            }
            assert(open_names.deep_view() =~= sv.groups(true, true));
            assert forall|j: int| 0 <= j < sv.groups(false, true).len() implies closed_names.deep_view()[j] == sv.groups(false, true)[j] by {
                assert(groups.closed@[j]@.index == j as u32);
                assert(groups.closed@[j]@.name == sv.groups(false, true)[j]);
            }
            assert(closed_names.deep_view() =~= sv.groups(false, true));
        }
        let changed = !string_vecs_equal(&open_names, &self.open_window_groups)
            || !string_vecs_equal(&closed_names, &self.closed_window_groups);
        if changed {
            self.selected_open = Vec::new();
            self.selected_closed = Vec::new();
            sender.send(
                Message::SetTabGroups {
                    open: open_names,
                    closed: closed_names,
                    open_selected: Vec::new(),
                    closed_selected: Vec::new(),
                },
            );
        }
        sender.send(Message::SetStatus("Generating output".to_owned()));
        let has_filter = self.selected_open.len() > 0 || self.selected_closed.len() > 0;
        let generate = GenerateOptions {
            open_group_indexes: if has_filter {
                Some(copy_vec(&self.selected_open))
            } else {
                None
            },
            closed_group_indexes: Some(copy_vec(&self.selected_closed)),
            sort_groups: true,
            table_of_content: true,
            tree_style_tab_trees: true,
            sidebery_trees: true,
        };
        match commands.to_text_links(state, self.data_id, &generate) {
            Ok(request) => {
                self.phase = PreviewPhase::AwaitRender;
                PreviewAction::Render { request }
            },
            Err(e) => self.fail(sender, e.message()),
        }
    }

    /// Takes one event and runs to the next outside-work boundary, reading
    /// and mutating the store only through the command layer.
    pub fn advance(&mut self, state: &mut UiState, event: PreviewEvent, sender: &mut ElmChannel)
        -> (a: PreviewAction)
        requires
            phase_accepts(old(self).phase, event),
            old(state)@.wf(),
            old(state)@.can_alloc_path(),
            old(state)@.can_alloc_data(),
            event matches PreviewEvent::Parsed(r) ==> (r is Ok ==> r->Ok_0@.wf()),
        ensures
            final(state)@.wf(),
            final(self).phase == action_phase(a),
            final(self).id == old(self).id,
            final(sender).queue@.len() >= old(sender).queue@.len(),
            forall|k: int|
                0 <= k < old(sender).queue@.len() ==> #[trigger] final(sender).queue@[k] == old(sender).queue@[k],
            // Every start first clears the preview, and no other preview
            // message is sent before the flow ends.
            event is Start ==> (final(sender).queue@.len() > old(sender).queue@.len()
                && msg_is_set_preview(
                final(sender).queue@[old(sender).queue@.len() as int],
                Seq::empty(),
            ) && no_preview_message(final(sender).queue@, old(sender).queue@.len() + 1 as int)),
            !(event is Start) && !(event matches PreviewEvent::Rendered(r) && r is Ok)
                ==> no_preview_message(final(sender).queue@, old(sender).queue@.len() as int),
            // A quiet start: nothing selected yet, so only the preview is
            // cleared and the flow ends.
            event matches PreviewEvent::Start && old(self).id.spec_value() == 0 ==> (final(state)@
                == old(state)@ && a is Finished && final(sender).queue@.len() == old(sender).queue@.len() + 1 && msg_is_set_preview(final(sender).queue@.last(), Seq::empty())),
            // A start whose identifier no longer resolves fails with the
            // expiry status.
            event is Start && old(self).id.spec_value() != 0 && !final(state)@.resolves_path(
                old(self).id.spec_value(),
            ) ==> (a is Finished && msg_is_error_status(
                final(sender).queue@.last(),
                "file id has expired"@,
            )),
            // A start whose identifier resolves proceeds with exactly the
            // work the record's status demands, or fails with the matching
            // error status.
            event is Start && old(self).id.spec_value() != 0 && final(state)@.resolves_path(
                old(self).id.spec_value(),
            ) ==> ({
                let r = final(state)@.path_record(old(self).id.spec_value());
                &&& r.data_id == 0 && r.file_path is Some ==> (a matches PreviewAction::ReadFile {
                    ..
                })
                &&& r.data_id == 0 && r.file_path is None ==> (a is Finished
                    && msg_is_error_status(
                    final(sender).queue@.last(),
                    "file hasn't been selected yet"@,
                ))
                &&& r.data_id != 0 && spec_status(r) == FileStatus::Compressed ==> (a matches
                    PreviewAction::Decompress { .. })
                &&& r.data_id != 0 && spec_status(r) == FileStatus::Uncompressed ==> (a matches
                    PreviewAction::Parse { .. })
                &&& r.data_id != 0 && spec_status(r) == FileStatus::Parsed ==> (a matches
                    PreviewAction::Render { .. })
                &&& r.data_id != 0 && (spec_status(r) == FileStatus::Found || spec_status(r)
                    == FileStatus::Empty) ==> (a is Finished && msg_is_error_status(
                    final(sender).queue@.last(),
                    "file data not loaded"@,
                ))
            }),
            // Commit-first: when the identifier lives in the New slot, the
            // start commits New into Current and reports the fresh New-slot
            // path identifier.
            event matches PreviewEvent::Start && old(self).id.spec_value() != 0 && old(state)@.new_file.path_id == old(self).id.spec_value() ==> (final(state)@
                == spec_commit_new_file(old(state)@) && final(sender).queue@.len() >= old(sender).queue@.len() + 2 && msg_is_sync_input_path(
                final(sender).queue@[old(sender).queue@.len() + 1 as int],
                path_text_of(old(state)@.new_file.file_path),
                old(state)@.path_next,
            )),
            event matches PreviewEvent::Start && old(self).id.spec_value() != 0 && old(state)@.new_file.path_id != old(self).id.spec_value() ==> final(state)@ == old(state)@,
            // Loaded bytes commit exactly as set_data does, if the path
            // identifier still resolves.
            event matches PreviewEvent::FileRead(r) ==> (r is Err ==> final(state)@ == old(state)@
                && a is Finished && msg_is_error_status(final(sender).queue@.last(), r->Err_0@)),
            event matches PreviewEvent::FileRead(r) ==> (r is Ok && old(state)@.resolves_path(
                old(self).id.spec_value(),
            ) && old(state)@.path_record(old(self).id.spec_value()).file_path is Some ==> final(state)@ == spec_set_data(old(state)@, old(self).id.spec_value(), r->Ok_0@) && final(self).data_id.spec_value() == old(state)@.data_next
                && final(sender).queue@.len() > old(sender).queue@.len()
                && msg_is_clear_tab_groups(final(sender).queue@[old(sender).queue@.len() as int])
                && final(self).selected_open@.len() == 0 && final(self).selected_closed@.len()
                == 0 && (spec_is_lz4_path(
                old(state)@.path_record(old(self).id.spec_value()).file_path->Some_0,
            ) ==> a matches PreviewAction::Decompress { .. }) && (!spec_is_lz4_path(
                old(state)@.path_record(old(self).id.spec_value()).file_path->Some_0,
            ) ==> a matches PreviewAction::Parse { .. })),
            event matches PreviewEvent::FileRead(r) ==> (r is Ok && !old(state)@.resolves_path(
                old(self).id.spec_value(),
            ) ==> final(state)@ == old(state)@ && a is Finished && msg_is_error_status(
                final(sender).queue@.last(),
                "path id expired while reading file data"@,
            )),
            // Decompressed bytes commit under the same data identifier,
            // clearing the compressed flag.
            event matches PreviewEvent::Decompressed(r) ==> (r is Err ==> final(state)@ == old(state)@
                && a is Finished && msg_is_error_status(final(sender).queue@.last(), r->Err_0@)),
            event matches PreviewEvent::Decompressed(r) ==> (r is Ok && old(state)@.resolves_data(
                old(self).data_id.spec_value(),
            ) ==> final(state)@ == spec_finish_decompress(
                old(state)@,
                old(self).data_id.spec_value(),
                r->Ok_0@,
            )),
            event matches PreviewEvent::Decompressed(r) ==> (r is Ok && !old(state)@.resolves_data(
                old(self).data_id.spec_value(),
            ) ==> final(state)@ == old(state)@ && a is Finished && msg_is_error_status(
                final(sender).queue@.last(),
                "file id expired while decompressing"@,
            )),
            // A parsed session commits under the same data identifier,
            // freeing the raw buffer.
            event matches PreviewEvent::Parsed(r) ==> (r is Err ==> final(state)@ == old(state)@
                && a is Finished && msg_is_error_status(final(sender).queue@.last(), r->Err_0@)),
            event matches PreviewEvent::Parsed(r) ==> (r is Ok && old(state)@.resolves_data(
                old(self).data_id.spec_value(),
            ) ==> final(state)@ == spec_finish_parse(
                old(state)@,
                old(self).data_id.spec_value(),
                r->Ok_0@,
            )),
            event matches PreviewEvent::Parsed(r) ==> (r is Ok && !old(state)@.resolves_data(
                old(self).data_id.spec_value(),
            ) ==> final(state)@ == old(state)@ && a is Finished && msg_is_error_status(
                final(sender).queue@.last(),
                "file id expired while parsing JSON"@,
            )),
            // Rendered text ends the flow with a success status and the
            // preview.
            event matches PreviewEvent::Rendered(r) ==> (r is Ok ==> final(state)@ == old(state)@
                && a is Finished && final(sender).queue@.len() == old(sender).queue@.len() + 2
                && msg_is_set_status(
                final(sender).queue@[old(sender).queue@.len() as int],
                "Successfully loaded session data!"@,
            ) && msg_is_set_preview(final(sender).queue@.last(), r->Ok_0@)),
            event matches PreviewEvent::Rendered(r) ==> (r is Err ==> final(state)@ == old(state)@
                && a is Finished && msg_is_error_status(final(sender).queue@.last(), r->Err_0@)),
            // Whatever path led here, the next piece of outside work is
            // consistent with what the store holds.
            a matches PreviewAction::ReadFile { id, path } ==> (id == old(self).id
                && final(state)@.resolves_path(id.spec_value()) && final(state)@.path_record(
                id.spec_value(),
            ).file_path == Some(path@) && msg_is_set_status(
                final(sender).queue@.last(),
                "Reading input data"@,
            )),
            a matches PreviewAction::Decompress { id, data } ==> (id == final(self).data_id
                && final(state)@.resolves_data(id.spec_value()) && final(state)@.data_record(
                id.spec_value(),
            ).data == Some(data@) && final(state)@.data_record(id.spec_value()).is_compressed
                && msg_is_set_status(final(sender).queue@.last(), "Decompressing"@)),
            a matches PreviewAction::Parse { id, data } ==> (id == final(self).data_id && final(state)@.resolves_data(id.spec_value()) && final(state)@.data_record(id.spec_value()).data
                == Some(data@) && !final(state)@.data_record(id.spec_value()).is_compressed
                && msg_is_set_status(final(sender).queue@.last(), "Parsing"@)),
            a matches PreviewAction::Render { request } ==> (final(state)@.resolves_data(
                final(self).data_id.spec_value(),
            ) && final(state)@.data_record(final(self).data_id.spec_value()).session is Some
                && link_request_matches(
                request,
                final(state)@.data_record(final(self).data_id.spec_value()).session->Some_0,
                filtered_generate_options(
                    final(self).selected_open@,
                    final(self).selected_closed@,
                ),
            ) && msg_is_set_status(final(sender).queue@.last(), "Generating output"@)),
    {
        let commands = HostCommands;
        match event {
            PreviewEvent::Start => {
                sender.send(Message::SetPreview(String::new()));
                if self.id == PathId::null() {
                    self.phase = PreviewPhase::Finished;
                    return PreviewAction::Finished;
                }
                let new_info = commands.get_info_for_slot(state, FileSlot::New);
                if new_info.path_id == self.id {
                    commands.commit_new_file(state);
                    let after = commands.get_info_for_slot(state, FileSlot::New);
                    let path_text = match after.file_path {
                        Some(p) => p,
                        None => String::new(),
                    };
                    sender.send(Message::SyncInputPath(path_text, after.path_id));
                    proof {
                        assert(sender.queue@.len() == old(sender).queue@.len() + 2);
                        assert(msg_is_sync_input_path(
                            sender.queue@[old(sender).queue@.len() + 1 as int],
                            path_text_of(old(state)@.new_file.file_path),
                            old(state)@.path_next,
                        ));
                    }
                }
                let info = match commands.get_info_for_path_id(state, self.id) {
                    Some(i) => i,
                    None => {
                        return self.fail(sender, CommandError::DataIdExpired.message());
                    },
                };
                if info.data_id == DataId::null() {
                    sender.send(Message::SetStatus("Reading input data".to_owned()));
                    match commands.begin_load_data(state, self.id) {
                        Ok(path) => {
                            self.phase = PreviewPhase::AwaitRead;
                            PreviewAction::ReadFile { id: self.id, path }
                        },
                        Err(e) => self.fail(sender, e.message()),
                    }
                } else {
                    self.data_id = info.data_id;
                    self.status_snapshot = info.status;
                    self.proceed_after_load(state, sender)
                }
            },
            PreviewEvent::FileRead(result) => match result {
                Err(e) => self.fail(sender, e),
                Ok(bytes) => match commands.finish_load_data(state, self.id, bytes) {
                    Err(e) => self.fail(sender, e.message()),
                    Ok(d) => {
                        self.open_window_groups = Vec::new();
                        self.closed_window_groups = Vec::new();
                        self.selected_open = Vec::new();
                        self.selected_closed = Vec::new();
                        sender.send(
                            Message::SetTabGroups {
                                open: Vec::new(),
                                closed: Vec::new(),
                                open_selected: Vec::new(),
                                closed_selected: Vec::new(),
                            },
                        );
                        proof {
                            assert(msg_is_clear_tab_groups(
                                sender.queue@[old(sender).queue@.len() as int],
                            ));
                        }
                        match commands.get_info_for_data_id(state, d) {
                            None => self.fail(sender, CommandError::DataIdExpired.message()),
                            Some(info) => {
                                self.data_id = d;
                                self.status_snapshot = info.status;
                                self.proceed_after_load(state, sender)
                            },
                        }
                    },
                },
            },
            PreviewEvent::Decompressed(result) => match result {
                Err(e) => self.fail(sender, e),
                Ok(bytes) => match commands.finish_decompress_data(state, self.data_id, bytes) {
                    Err(e) => self.fail(sender, e.message()),
                    Ok(_) => {
                        if !(self.status_snapshot == FileStatus::Parsed) {
                            sender.send(Message::SetStatus("Parsing".to_owned()));
                            match commands.begin_parse_session_data(state, self.data_id) {
                                Ok(data) => {
                                    self.phase = PreviewPhase::AwaitParse;
                                    PreviewAction::Parse { id: self.data_id, data }
                                },
                                Err(e) => self.fail(sender, e.message()),
                            }
                        } else {
                            self.groups_and_render(state, sender)
                        }
                    },
                },
            },
            PreviewEvent::Parsed(result) => match result {
                Err(e) => self.fail(sender, e),
                Ok(session) => match commands.finish_parse_session_data(
                    state,
                    self.data_id,
                    session,
                ) {
                    Err(e) => self.fail(sender, e.message()),
                    Ok(_) => self.groups_and_render(state, sender),
                },
            },
            PreviewEvent::Rendered(result) => match result {
                Err(e) => self.fail(sender, e),
                Ok(text) => {
                    sender.send(Message::SetStatus("Successfully loaded session data!".to_owned()));
                    sender.send(Message::SetPreview(text));
                    self.phase = PreviewPhase::Finished;
                    PreviewAction::Finished
                },
            },
        }
    }
}

/// The names of these groups, in order.
fn names_of(groups: &Vec<TabGroup>) -> (r: Vec<String>)
    ensures
        r@.len() == groups@.len(),
        forall|j: int| 0 <= j < groups@.len() ==> r.deep_view()[j] == groups@[j]@.name,
{
    let n = groups.len();
    let mut r: Vec<String> = Vec::new();
    let mut i: usize = 0;
    while i < n
        invariant
            i <= n,
            n == groups@.len(),
            r@.len() == i,
            forall|j: int| 0 <= j < i ==> r.deep_view()[j] == groups@[j]@.name,
        decreases n - i,
    {
        let nm = groups[i].name.clone();
        let ghost prev = r@;
        let ghost prev_deep = r.deep_view();
        r.push(nm);
        proof {
            assert forall|j: int| 0 <= j < i + 1 implies r.deep_view()[j] == groups@[j]@.name by {
                if j < i {
                    assert(r@[j] == prev[j]);
                    assert(r.deep_view()[j] == prev[j].deep_view());
                    assert(prev_deep[j] == prev[j].deep_view());
                } else {
                    assert(r@[j] == nm);
                }
            }
        }
        i = i + 1;
    }
    r
}

} // verus!
