//! The backend halves of recorded effects that involve no outside work of
//! their own: restoring view state from the store at startup, and the
//! status sequencing around saving links. They read and mutate the store
//! only through the command layer and send the resulting messages, so the
//! embedding program merely relays them (and, for saving, performs the one
//! render-and-write step between the two halves).

use vstd::prelude::*;
use vstd::string::StringExecFns;

use crate::commands::{link_request_matches, spec_forget_data, HostCommands, SaveRequest};
use crate::errors::CommandError;
use crate::ids::{DataId, PathId};
use crate::messages::{
    msg_is_empty_selection, msg_is_set_status, msg_is_sync_input_path, msg_is_sync_loaded_path,
    msg_is_sync_output_path, path_text_of, ElmChannel, Message,
};
use crate::options::{GenerateOptions, OutputOptions};
use crate::store::UiState;

verus! {

/// Restores the view state from the store: reports the configured save
/// path, the New slot's path (dropping any data it still holds, to free
/// memory), and the Current slot's path with a request to regenerate the
/// preview.
pub fn restore_view_state(state: &mut UiState, sender: &mut ElmChannel)
    requires
        old(state)@.wf(),
    ensures
        final(state)@.wf(),
        old(state)@.new_file.path_id != 0 && old(state)@.new_file.data_id != 0 ==> final(state)@
            == spec_forget_data(old(state)@, old(state)@.new_file.data_id),
        !(old(state)@.new_file.path_id != 0 && old(state)@.new_file.data_id != 0) ==> final(state)@ == old(state)@,
        forall|k: int|
            0 <= k < old(sender).queue@.len() ==> #[trigger] final(sender).queue@[k] == old(sender).queue@[k],
        ({
            let q = final(sender).queue@;
            let q0 = old(sender).queue@.len() as int;
            let s = old(state)@;
            let saves: int = if s.save_path is Some {
                1
            } else {
                0
            };
            let news: int = if s.new_file.path_id != 0 {
                1
            } else {
                0
            };
            let curs: int = if s.current_file.path_id != 0 {
                2
            } else {
                0
            };
            &&& q.len() == q0 + saves + news + curs
            &&& s.save_path is Some ==> msg_is_sync_output_path(q[q0], s.save_path->Some_0)
            &&& s.new_file.path_id != 0 ==> msg_is_sync_input_path(
                q[q0 + saves],
                path_text_of(s.new_file.file_path),
                s.new_file.path_id,
            )
            &&& s.current_file.path_id != 0 ==> msg_is_sync_loaded_path(
                q[q0 + saves + news],
                path_text_of(s.current_file.file_path),
                s.current_file.path_id,
            ) && msg_is_empty_selection(q[q0 + saves + news + 1])
        }),
{
    let commands = HostCommands;
    if let Some(save_path) = commands.get_save_path(state) {
        sender.send(Message::SyncOutputPath(save_path));
    }
    let new_info = commands.get_info_for_slot(state, crate::store::FileSlot::New);
    if new_info.path_id != PathId::null() {
        if new_info.data_id != DataId::null() {
            commands.forget_data(state, new_info.data_id);
        }
        let path_text = match new_info.file_path {
            Some(p) => p,
            None => String::new(),
        };
        sender.send(Message::SyncInputPath(path_text, new_info.path_id));
    }
    let current = commands.get_info_for_slot(state, crate::store::FileSlot::Current);
    if current.path_id != PathId::null() {
        let path_text = match current.file_path {
            Some(p) => p,
            None => String::new(),
        };
        sender.send(Message::SyncLoadedPath(path_text, current.path_id));
        sender.send(Message::SetSelectedTabGroups { open: Vec::new(), closed: Vec::new() });
    }
}

/// First half of saving: emits the save statuses and validates the save
/// through the command layer against the Current slot's data. Returns the
/// request the embedding program should render and write, or nothing after
/// reporting why saving cannot proceed.
pub fn begin_save_links(
    state: &UiState,
    generate: &GenerateOptions,
    output: &OutputOptions,
    sender: &mut ElmChannel,
) -> (r: Option<SaveRequest>)
    requires
        state@.wf(),
    ensures
        forall|k: int|
            0 <= k < old(sender).queue@.len() ==> #[trigger] final(sender).queue@[k] == old(sender).queue@[k],
        ({
            let q = final(sender).queue@;
            let q0 = old(sender).queue@.len() as int;
            let s = state@;
            &&& msg_is_set_status(q[q0], "Saving links"@)
            &&& s.save_path is None ==> r is None && q.len() == q0 + 2 && msg_is_set_status(
                q[q0 + 1],
                "Failed to save links: no save path selected"@,
            )
            &&& s.save_path is Some ==> msg_is_set_status(
                q[q0 + 1],
                "Saving links to "@ + s.save_path->Some_0,
            )
            &&& s.save_path is Some && !s.resolves_data(s.current_file.data_id) ==> (r is None
                && q.len() == q0 + 3 && msg_is_set_status(
                q[q0 + 2],
                "Failed to save links to file: "@ + CommandError::DataIdExpired.spec_message(),
            ))
            &&& s.save_path is Some && s.resolves_data(s.current_file.data_id)
                && s.current_file.session is None ==> (r is None && q.len() == q0 + 3
                && msg_is_set_status(
                q[q0 + 2],
                "Failed to save links to file: "@
                    + CommandError::SessionNotParsedForLinks.spec_message(),
            ))
            &&& s.save_path is Some && s.resolves_data(s.current_file.data_id)
                && s.current_file.session is Some ==> (q.len() == q0 + 2 && (r matches Some(req)
                && req.save_path@ == s.save_path->Some_0 && req.output == *output
                && link_request_matches(req.links, s.current_file.session->Some_0, generate@)))
        }),
{
    let commands = HostCommands;
    sender.send(Message::SetStatus("Saving links".to_owned()));
    let save_path = match commands.get_save_path(state) {
        None => {
            sender.send(
                Message::SetStatus("Failed to save links: no save path selected".to_owned()),
            );
            return None;
        },
        Some(p) => p,
    };
    sender.send(Message::SetStatus("Saving links to ".to_owned().concat(save_path.as_str())));
    let id = state.current_file.data_id;
    match commands.save_links(state, id, generate, output) {
        Ok(req) => Some(req),
        Err(e) => {
            sender.send(
                Message::SetStatus(
                    "Failed to save links to file: ".to_owned().concat(e.message().as_str()),
                ),
            );
            None
        },
    }
}

/// Second half of saving: reports how the render-and-write step went.
pub fn report_save_outcome(sender: &mut ElmChannel, save_path: &str, result: Result<(), String>)
    ensures
        final(sender).queue@.len() == old(sender).queue@.len() + 1,
        forall|k: int|
            0 <= k < old(sender).queue@.len() ==> #[trigger] final(sender).queue@[k] == old(sender).queue@[k],
        result is Ok ==> msg_is_set_status(
            final(sender).queue@.last(),
            "Successfully saved links to a file at: "@ + save_path@,
        ),
        result matches Err(e) ==> msg_is_set_status(
            final(sender).queue@.last(),
            "Failed to save links to file: "@ + e@,
        ),
{
    match result {
        Ok(_) => {
            sender.send(
                Message::SetStatus(
                    "Successfully saved links to a file at: ".to_owned().concat(save_path),
                ),
            );
        },
        Err(e) => {
            sender.send(
                Message::SetStatus("Failed to save links to file: ".to_owned().concat(e.as_str())),
            );
        },
    }
}

} // verus!
