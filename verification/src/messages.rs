//! The messages of the dispatch loop, and the queue they travel through.
//!
//! The dispatch loop is a single-threaded reducer: background tasks never
//! mutate state directly, they only enqueue messages here, and one dispatch
//! pass applies messages until the queue is empty.

use vstd::prelude::*;

use crate::ids::PathId;
use crate::options::OutputFormat;
use crate::profiles::FirefoxProfileInfo;

verus! {

/// Everything the reducer can be told.
#[derive(Debug, Clone)]
pub enum Message {
    /// The user edited the input path by hand.
    SetInputPath(String),
    /// The backend assigned a new input path; fetch it by identifier.
    UpdateInputPath(PathId),
    /// Adopt this input path and identifier into the view state.
    SyncInputPath(String, PathId),
    OpenWizard,
    CloseWizard,
    FetchedFirefoxProfiles(Vec<FirefoxProfileInfo>),
    /// Adopt this loaded path and identifier into the view state.
    SyncLoadedPath(String, PathId),
    SetPreview(String),
    /// Assign this input path and immediately load it.
    LoadInputPath(String),
    /// Load whatever the input path currently is.
    LoadNewData,
    SetTabGroups {
        open: Vec<String>,
        closed: Vec<String>,
        open_selected: Vec<u32>,
        closed_selected: Vec<u32>,
    },
    SetSelectedTabGroups { open: Vec<u32>, closed: Vec<u32> },
    SetOutputPath(String),
    /// The backend changed its output path.
    SyncOutputPath(String),
    SetOverwrite(bool),
    SetCreateFolder(bool),
    SetOutputFormat(OutputFormat),
    SetStatus(String),
    FetchedOutputFormatInfo(Vec<(OutputFormat, String)>),
    CopyLinksToClipboard,
    WriteLinksToFile,
}

/// The message queue handed to the reducer and to background tasks.
#[derive(Debug)]
pub struct ElmChannel {
    pub queue: Vec<Message>,
}

impl ElmChannel {
    pub fn new() -> (r: ElmChannel)
        ensures
            r.queue@.len() == 0,
    {
        ElmChannel { queue: Vec::new() }
    }

    /// Enqueues one message at the back.
    pub fn send(&mut self, msg: Message)
        ensures
            final(self).queue@ == old(self).queue@.push(msg),
    {
        self.queue.push(msg);
    }
}

/// The message is `SetStatus` with exactly this text.
pub open spec fn msg_is_set_status(m: Message, text: Seq<char>) -> bool {
    m matches Message::SetStatus(s) && s@ == text
}

/// The message is `SetPreview` with exactly this text.
pub open spec fn msg_is_set_preview(m: Message, text: Seq<char>) -> bool {
    m matches Message::SetPreview(s) && s@ == text
}

/// The message is `SyncInputPath` with exactly this path and identifier.
pub open spec fn msg_is_sync_input_path(m: Message, path: Seq<char>, id: u64) -> bool {
    m matches Message::SyncInputPath(p, i) && p@ == path && i.spec_value() == id
}

/// The message is `SyncOutputPath` with exactly this path.
pub open spec fn msg_is_sync_output_path(m: Message, path: Seq<char>) -> bool {
    m matches Message::SyncOutputPath(p) && p@ == path
}

/// The message is `SyncLoadedPath` with exactly this path and identifier.
pub open spec fn msg_is_sync_loaded_path(m: Message, path: Seq<char>, id: u64) -> bool {
    m matches Message::SyncLoadedPath(p, i) && p@ == path && i.spec_value() == id
}

/// The message is `SetSelectedTabGroups` with both selections empty.
pub open spec fn msg_is_empty_selection(m: Message) -> bool {
    m matches Message::SetSelectedTabGroups { open, closed } && open@.len() == 0 && closed@.len()
        == 0
}

/// The message is `SetTabGroups` with all four lists empty.
pub open spec fn msg_is_clear_tab_groups(m: Message) -> bool {
    m matches Message::SetTabGroups { open, closed, open_selected, closed_selected }
        && open@.len() == 0 && closed@.len() == 0 && open_selected@.len() == 0
        && closed_selected@.len() == 0
}

/// The message is `SetTabGroups` carrying exactly these name lists and
/// empty selections.
pub open spec fn msg_is_tab_groups(
    m: Message,
    open: Seq<Seq<char>>,
    closed: Seq<Seq<char>>,
) -> bool {
    m matches Message::SetTabGroups { open: o, closed: c, open_selected, closed_selected }
        && o.deep_view() == open && c.deep_view() == closed && open_selected@.len() == 0
        && closed_selected@.len() == 0
}

/// The text shown for an optional path: the path itself, or empty.
pub open spec fn path_text_of(p: Option<Seq<char>>) -> Seq<char> {
    match p {
        Some(s) => s,
        None => Seq::empty(),
    }
}

/// No preview message stands at or after position `from` in the queue.
pub open spec fn no_preview_message(q: Seq<Message>, from: int) -> bool {
    forall|k: int| from <= k < q.len() ==> !((#[trigger] q[k]) is SetPreview)
}

/// A status message reporting an error with exactly this detail text.
pub open spec fn msg_is_error_status(m: Message, detail: Seq<char>) -> bool {
    msg_is_set_status(m, "Error: "@ + detail)
}

} // verus!
