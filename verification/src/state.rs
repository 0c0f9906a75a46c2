//! The view-state reducer: one synchronous `update` step per message, plus
//! the drain loop that applies messages until the queue is empty.
//!
//! `update` never performs outside work itself. Where an interaction needs
//! a background task, `update` records an [`Effect`];
//! the embedding program executes each effect (calling the command layer,
//! doing I/O, running the preview flow) and feeds any outcome back into the
//! queue as messages. No effect ever mutates the view state directly.

use vstd::prelude::*;

use crate::ids::PathId;
use crate::messages::{ElmChannel, Message};
use crate::options::{
    filtered_generate_options, GenerateOptions, OutputFormat, OutputOptions,
};
use crate::preview::{PreviewFlow, PreviewPhase};
use crate::profiles::FirefoxProfileInfo;
use crate::util::{copy_strings, copy_vec};

verus! {

/// Background work the reducer asks the embedding program to run.
#[derive(Debug)]
pub enum Effect {
    /// Restore view state from the backend at startup.
    RestoreFromBackend,
    /// Fetch the description text of every output format.
    FetchFormatDescriptions,
    /// Assign this path to the New slot and sync the result back.
    AssignInputPath { path: String },
    /// Look the record up by path identifier and sync its path back.
    QueryInputPath { id: PathId },
    /// Gather browser profiles for the wizard.
    FindProfiles,
    /// Assign this path to the New slot, sync it back, then load it.
    AssignInputPathAndLoad { path: String },
    /// Store this save path in the backend.
    StoreSavePath { path: String },
    /// Copy this text to the clipboard.
    CopyToClipboard { text: String },
    /// Render links with these options and write them to the save file.
    SaveLinks { generate: GenerateOptions, output: OutputOptions },
    /// Run the preview orchestration from this snapshot.
    RunPreview { flow: PreviewFlow },
}

/// The program's view state, reduced over messages.
#[derive(Debug)]
pub struct State {
    /// Path that new data will be loaded from; editable in the view.
    pub input_path: String,
    pub input_path_id: PathId,
    /// Path the current data was loaded from.
    pub loaded_path: String,
    pub loaded_path_id: PathId,
    pub preview: String,
    pub save_path: String,
    pub output_options: OutputOptions,
    pub open_window_groups: Vec<String>,
    pub closed_window_groups: Vec<String>,
    pub selected_open_window_groups: Vec<u32>,
    pub selected_closed_window_groups: Vec<u32>,
    pub status: String,
    pub format_info: Vec<(OutputFormat, String)>,
    pub wizard: bool,
    pub wizard_profiles: Vec<FirefoxProfileInfo>,
}

pub ghost struct StateView {
    pub input_path: Seq<char>,
    pub input_path_id: u64,
    pub loaded_path: Seq<char>,
    pub loaded_path_id: u64,
    pub preview: Seq<char>,
    pub save_path: Seq<char>,
    pub output_options: OutputOptions,
    pub open_window_groups: Seq<Seq<char>>,
    pub closed_window_groups: Seq<Seq<char>>,
    pub selected_open_window_groups: Seq<u32>,
    pub selected_closed_window_groups: Seq<u32>,
    pub status: Seq<char>,
    pub format_info: Seq<(OutputFormat, String)>,
    pub wizard: bool,
    pub wizard_profiles: Seq<FirefoxProfileInfo>,
}

impl View for State {
    type V = StateView;

    open spec fn view(&self) -> StateView {
        StateView {
            input_path: self.input_path@,
            input_path_id: self.input_path_id.spec_value(),
            loaded_path: self.loaded_path@,
            loaded_path_id: self.loaded_path_id.spec_value(),
            preview: self.preview@,
            save_path: self.save_path@,
            output_options: self.output_options,
            open_window_groups: self.open_window_groups.deep_view(),
            closed_window_groups: self.closed_window_groups.deep_view(),
            selected_open_window_groups: self.selected_open_window_groups@,
            selected_closed_window_groups: self.selected_closed_window_groups@,
            status: self.status@,
            format_info: self.format_info@,
            wizard: self.wizard,
            wizard_profiles: self.wizard_profiles@,
        }
    }
}

/// The snapshot `update` hands to a preview run: the loaded path identifier
/// and the current group lists and selections.
pub open spec fn flow_snapshot_matches(flow: PreviewFlow, s: StateView) -> bool {
    &&& flow.id.spec_value() == s.loaded_path_id
    &&& flow.open_window_groups.deep_view() == s.open_window_groups
    &&& flow.closed_window_groups.deep_view() == s.closed_window_groups
    &&& flow.selected_open@ == s.selected_open_window_groups
    &&& flow.selected_closed@ == s.selected_closed_window_groups
    &&& flow.data_id.spec_value() == 0
    &&& flow.phase == PreviewPhase::NotStarted
}

/// The reducer as a mathematical function: the state one message leaves
/// behind. [`State::update`] is proved to compute exactly this.
pub open spec fn spec_step(s: StateView, m: Message) -> StateView {
    match m {
        Message::SetInputPath(p) => StateView { input_path: p@, ..s },
        Message::UpdateInputPath(_) => s,
        Message::SyncInputPath(p, id) => StateView {
            input_path: p@,
            input_path_id: id.spec_value(),
            ..s
        },
        Message::OpenWizard => StateView { wizard: true, ..s },
        Message::CloseWizard => StateView { wizard: false, ..s },
        Message::FetchedFirefoxProfiles(ps) => StateView { wizard_profiles: ps@, ..s },
        Message::SyncLoadedPath(p, id) => StateView {
            loaded_path: p@,
            loaded_path_id: id.spec_value(),
            ..s
        },
        Message::SetPreview(p) => StateView { preview: p@, ..s },
        Message::LoadInputPath(p) => StateView { input_path: p@, ..s },
        Message::LoadNewData => StateView {
            loaded_path: s.input_path,
            loaded_path_id: s.input_path_id,
            ..s
        },
        Message::SetTabGroups { open, closed, open_selected, closed_selected } => StateView {
            open_window_groups: open.deep_view(),
            closed_window_groups: closed.deep_view(),
            selected_open_window_groups: open_selected@,
            selected_closed_window_groups: closed_selected@,
            ..s
        },
        Message::SetSelectedTabGroups { open, closed } => StateView {
            selected_open_window_groups: open@,
            selected_closed_window_groups: closed@,
            ..s
        },
        Message::SetOutputPath(p) => StateView { save_path: p@, ..s },
        Message::SyncOutputPath(p) => StateView { save_path: p@, ..s },
        Message::SetOverwrite(b) => StateView {
            output_options: OutputOptions { overwrite: b, ..s.output_options },
            ..s
        },
        Message::SetCreateFolder(b) => StateView {
            output_options: OutputOptions { create_folder: b, ..s.output_options },
            ..s
        },
        Message::SetOutputFormat(f) => StateView {
            output_options: OutputOptions { format: f, ..s.output_options },
            ..s
        },
        Message::SetStatus(t) => StateView { status: t@, ..s },
        Message::FetchedOutputFormatInfo(info) => StateView { format_info: info@, ..s },
        Message::CopyLinksToClipboard => s,
        Message::WriteLinksToFile => s,
    }
}

/// How many effects one message makes the reducer record.
pub open spec fn spec_step_effect_count(m: Message) -> nat {
    match m {
        Message::SetInputPath(_) => 1,
        Message::UpdateInputPath(_) => 1,
        Message::OpenWizard => 1,
        Message::LoadNewData => 1,
        Message::LoadInputPath(_) => 1,
        Message::SetOutputPath(_) => 1,
        Message::SetSelectedTabGroups { .. } => 1,
        Message::CopyLinksToClipboard => 1,
        Message::WriteLinksToFile => 1,
        _ => 0,
    }
}

/// The effect one message makes the reducer record, given the state `s` the
/// message arrives in.
pub open spec fn step_effect_matches(s: StateView, m: Message, e: Effect) -> bool {
    match m {
        Message::SetInputPath(p) => e matches Effect::AssignInputPath { path } && path@ == p@,
        Message::UpdateInputPath(id) => e matches Effect::QueryInputPath { id: q } && q == id,
        Message::OpenWizard => e is FindProfiles,
        Message::LoadNewData => e matches Effect::RunPreview { flow } && flow_snapshot_matches(
            flow,
            spec_step(s, m),
        ),
        Message::LoadInputPath(p) => e matches Effect::AssignInputPathAndLoad { path } && path@
            == p@,
        Message::SetOutputPath(p) => e matches Effect::StoreSavePath { path } && path@ == p@,
        Message::SetSelectedTabGroups { .. } => e matches Effect::RunPreview { flow }
            && flow_snapshot_matches(flow, spec_step(s, m)),
        Message::CopyLinksToClipboard => e matches Effect::CopyToClipboard { text } && text@
            == s.preview,
        Message::WriteLinksToFile => e matches Effect::SaveLinks { generate, output } && generate@
            == filtered_generate_options(
            s.selected_open_window_groups,
            s.selected_closed_window_groups,
        ) && output == s.output_options,
        _ => false,
    }
}

/// The state left after applying a whole queue of messages in order.
pub open spec fn fold_state(s: StateView, msgs: Seq<Message>) -> StateView
    decreases msgs.len(),
{
    if msgs.len() == 0 {
        s
    } else {
        fold_state(spec_step(s, msgs[0]), msgs.skip(1))
    }
}

/// `es` is exactly the effect list that applying `msgs` in order from state
/// `s` records: per message, `spec_step_effect_count` entries matching
/// `step_effect_matches`, concatenated.
pub open spec fn fold_effects_match(s: StateView, msgs: Seq<Message>, es: Seq<Effect>) -> bool
    decreases msgs.len(),
{
    if msgs.len() == 0 {
        es.len() == 0
    } else {
        let c = spec_step_effect_count(msgs[0]);
        &&& es.len() >= c
        &&& (c == 1 ==> step_effect_matches(s, msgs[0], es[0]))
        &&& fold_effects_match(spec_step(s, msgs[0]), msgs.skip(1), es.skip(c as int))
    }
}

/// Folding one more message applies the step to the fold of the rest.
proof fn lemma_fold_state_snoc(s: StateView, msgs: Seq<Message>, m: Message)
    ensures
        fold_state(s, msgs.push(m)) == spec_step(fold_state(s, msgs), m),
    decreases msgs.len(),
{
    let p = msgs.push(m);
    if msgs.len() == 0 {
        assert(fold_state(s, msgs) == s);
        assert(p[0] == m);
        assert(p.skip(1) =~= Seq::<Message>::empty());
        assert(fold_state(s, p) == fold_state(spec_step(s, m), p.skip(1)));
        assert(fold_state(spec_step(s, m), p.skip(1)) == spec_step(s, m));
    } else {
        assert(p[0] == msgs[0]);
        assert(p.skip(1) =~= msgs.skip(1).push(m));
        lemma_fold_state_snoc(spec_step(s, msgs[0]), msgs.skip(1), m);
        assert(fold_state(s, p) == fold_state(spec_step(s, p[0]), p.skip(1)));
        assert(fold_state(s, msgs) == fold_state(spec_step(s, msgs[0]), msgs.skip(1)));
    }
}

/// Appending the effects of one more message extends a matching effect
/// list.
proof fn lemma_fold_effects_snoc(
    s: StateView,
    msgs: Seq<Message>,
    m: Message,
    es: Seq<Effect>,
    extra: Seq<Effect>,
)
    requires
        fold_effects_match(s, msgs, es),
        extra.len() == spec_step_effect_count(m),
        spec_step_effect_count(m) == 1 ==> step_effect_matches(fold_state(s, msgs), m, extra[0]),
    ensures
        fold_effects_match(s, msgs.push(m), es + extra),
    decreases msgs.len(),
{
    let p = msgs.push(m);
    let all = es + extra;
    if msgs.len() == 0 {
        assert(es.len() == 0);
        assert(fold_state(s, msgs) == s);
        assert(p[0] == m);
        let c = spec_step_effect_count(m);
        assert(all.len() == c);
        if c == 1 {
            assert(all[0] == extra[0]);
        }
        assert(p.skip(1) =~= Seq::<Message>::empty());
        assert(all.skip(c as int) =~= Seq::<Effect>::empty());
        assert(fold_effects_match(spec_step(s, m), p.skip(1), all.skip(c as int)));
        assert(fold_effects_match(s, p, all));
    } else {
        let c0 = spec_step_effect_count(msgs[0]);
        assert(p[0] == msgs[0]);
        if c0 == 1 {
            assert(all[0] == es[0]);
        }
        assert(p.skip(1) =~= msgs.skip(1).push(m));
        assert(all.skip(c0 as int) =~= es.skip(c0 as int) + extra);
        assert(fold_state(s, msgs) == fold_state(spec_step(s, msgs[0]), msgs.skip(1)));
        lemma_fold_effects_snoc(spec_step(s, msgs[0]), msgs.skip(1), m, es.skip(c0 as int), extra);
        assert(fold_effects_match(s, p, all));
    }
}

impl State {
    /// The state a run starts with, and the two startup effects: restoring
    /// view state from the backend, and fetching the format descriptions.
    pub fn init(tasks: &mut Vec<Effect>) -> (r: State)
        ensures
            r@.input_path.len() == 0,
            r@.input_path_id == 0,
            r@.loaded_path.len() == 0,
            r@.loaded_path_id == 0,
            r@.preview.len() == 0,
            r@.save_path.len() == 0,
            r@.output_options.format == OutputFormat::PDF,
            !r@.output_options.overwrite,
            !r@.output_options.create_folder,
            r@.open_window_groups.len() == 0,
            r@.closed_window_groups.len() == 0,
            r@.selected_open_window_groups.len() == 0,
            r@.selected_closed_window_groups.len() == 0,
            r@.status.len() == 0,
            r@.format_info.len() == OutputFormat::spec_all().len(),
            forall|i: int|
                0 <= i < r@.format_info.len() ==> (#[trigger] r@.format_info[i]).0
                    == OutputFormat::spec_all()[i] && r@.format_info[i].1@.len() == 0,
            !r@.wizard,
            r@.wizard_profiles.len() == 0,
            final(tasks)@.len() == old(tasks)@.len() + 2,
            forall|k: int|
                0 <= k < old(tasks)@.len() ==> #[trigger] final(tasks)@[k] == old(tasks)@[k],
            final(tasks)@[old(tasks)@.len() as int] is RestoreFromBackend,
            final(tasks)@.last() is FetchFormatDescriptions,
    {
        let formats = OutputFormat::all();
        let mut format_info: Vec<(OutputFormat, String)> = Vec::new();
        let n = formats.len();
        let mut i: usize = 0;
        while i < n
            invariant
                i <= n,
                n == formats@.len(),
                formats@ == OutputFormat::spec_all(),
                format_info@.len() == i,
                forall|k: int|
                    0 <= k < i ==> (#[trigger] format_info@[k]).0 == formats@[k]
                        && format_info@[k].1@.len() == 0,
            decreases n - i,
        {
            format_info.push((formats[i], String::new()));
            i = i + 1;
        }
        tasks.push(Effect::RestoreFromBackend);
        tasks.push(Effect::FetchFormatDescriptions);
        State {
            input_path: String::new(),
            input_path_id: PathId::null(),
            loaded_path: String::new(),
            loaded_path_id: PathId::null(),
            preview: String::new(),
            save_path: String::new(),
            output_options: OutputOptions::default(),
            open_window_groups: Vec::new(),
            closed_window_groups: Vec::new(),
            selected_open_window_groups: Vec::new(),
            selected_closed_window_groups: Vec::new(),
            status: String::new(),
            format_info,
            wizard: false,
            wizard_profiles: Vec::new(),
        }
    }

    /// The flow snapshot for a preview of what is currently loaded.
    fn snapshot_flow(&self) -> (flow: PreviewFlow)
        ensures
            flow_snapshot_matches(flow, self@),
    {
        PreviewFlow::new(
            self.loaded_path_id,
            copy_strings(&self.open_window_groups),
            copy_strings(&self.closed_window_groups),
            copy_vec(&self.selected_open_window_groups),
            copy_vec(&self.selected_closed_window_groups),
        )
    }

    /// Applies one message: mutates the view state exactly as [`spec_step`]
    /// says and records the effects the embedding program must run. Runs
    /// synchronously and never touches the message queue itself.
    pub fn update(&mut self, msg: Message, tasks: &mut Vec<Effect>)
        ensures
            final(self)@ == spec_step(old(self)@, msg),
            final(tasks)@.len() == old(tasks)@.len() + spec_step_effect_count(msg),
            forall|k: int|
                0 <= k < old(tasks)@.len() ==> #[trigger] final(tasks)@[k] == old(tasks)@[k],
            spec_step_effect_count(msg) == 1 ==> step_effect_matches(
                old(self)@,
                msg,
                final(tasks)@.last(),
            ),
    {
        match msg {
            Message::SetInputPath(path) => {
                self.input_path = path.clone();
                tasks.push(Effect::AssignInputPath { path });
            },
            Message::UpdateInputPath(id) => {
                tasks.push(Effect::QueryInputPath { id });
            },
            Message::SyncInputPath(path, id) => {
                self.input_path = path;
                self.input_path_id = id;
            },
            Message::OpenWizard => {
                self.wizard = true;
                tasks.push(Effect::FindProfiles);
            },
            Message::CloseWizard => {
                self.wizard = false;
            },
            Message::FetchedFirefoxProfiles(profiles) => {
                self.wizard_profiles = profiles;
            },
            Message::SyncLoadedPath(path, id) => {
                self.loaded_path = path;
                self.loaded_path_id = id;
            },
            Message::LoadNewData => {
                self.loaded_path_id = self.input_path_id;
                self.loaded_path = self.input_path.clone();
                let flow = self.snapshot_flow();
                tasks.push(Effect::RunPreview { flow });
            },
            Message::LoadInputPath(path) => {
                self.input_path = path.clone();
                tasks.push(Effect::AssignInputPathAndLoad { path });
            },
            Message::SetPreview(preview) => {
                self.preview = preview;
            },
            Message::SetOutputPath(path) => {
                self.save_path = path.clone();
                tasks.push(Effect::StoreSavePath { path });
            },
            Message::SyncOutputPath(path) => {
                self.save_path = path;
            },
            Message::SetOverwrite(overwrite) => {
                self.output_options.overwrite = overwrite;
            },
            Message::SetCreateFolder(create_folder) => {
                self.output_options.create_folder = create_folder;
            },
            Message::SetOutputFormat(format) => {
                self.output_options.format = format;
            },
            Message::SetTabGroups { open, closed, open_selected, closed_selected } => {
                self.open_window_groups = open;
                self.closed_window_groups = closed;
                self.selected_open_window_groups = open_selected;
                self.selected_closed_window_groups = closed_selected;
            },
            Message::SetSelectedTabGroups { open, closed } => {
                self.selected_open_window_groups = open;
                self.selected_closed_window_groups = closed;
                let flow = self.snapshot_flow();
                tasks.push(Effect::RunPreview { flow });
            },
            Message::SetStatus(status) => {
                self.status = status;
            },
            Message::FetchedOutputFormatInfo(info) => {
                self.format_info = info;
            },
            Message::CopyLinksToClipboard => {
                let text = self.preview.clone();
                tasks.push(Effect::CopyToClipboard { text });
            },
            Message::WriteLinksToFile => {
                let has_filter = self.selected_open_window_groups.len() > 0
                    || self.selected_closed_window_groups.len() > 0;
                let generate = GenerateOptions {
                    open_group_indexes: if has_filter {
                        Some(copy_vec(&self.selected_open_window_groups))
                    } else {
                        None
                    },
                    closed_group_indexes: Some(copy_vec(&self.selected_closed_window_groups)),
                    sort_groups: true,
                    table_of_content: true,
                    tree_style_tab_trees: true,
                    sidebery_trees: true,
                };
                tasks.push(Effect::SaveLinks { generate, output: self.output_options });
            },
        }
    }
}

/// One dispatch pass: applies queued messages, including messages enqueued
/// while the pass runs, until the queue is empty. The resulting state is
/// the left fold of [`spec_step`] over the queue, and the appended effects
/// are exactly the per-message effects, concatenated in order.
pub fn drain_messages(state: &mut State, channel: &mut ElmChannel, tasks: &mut Vec<Effect>)
    ensures
        final(channel).queue@.len() == 0,
        final(state)@ == fold_state(old(state)@, old(channel).queue@),
        final(tasks)@.len() >= old(tasks)@.len(),
        forall|k: int|
            0 <= k < old(tasks)@.len() ==> #[trigger] final(tasks)@[k] == old(tasks)@[k],
        fold_effects_match(
            old(state)@,
            old(channel).queue@,
            final(tasks)@.skip(old(tasks)@.len() as int),
        ),
{
    let ghost q0 = channel.queue@;
    let ghost s0 = state@;
    let ghost t0 = tasks@.len() as int;
    let ghost mut j: int = 0;
    while channel.queue.len() > 0
        invariant
            0 <= j <= q0.len(),
            channel.queue@ == q0.skip(j),
            state@ == fold_state(s0, q0.take(j)),
            tasks@.len() >= t0,
            t0 == old(tasks)@.len(),
            forall|k: int| 0 <= k < t0 ==> #[trigger] tasks@[k] == old(tasks)@[k],
            fold_effects_match(s0, q0.take(j), tasks@.skip(t0)),
        decreases channel.queue@.len(),
    {
        let ghost before_tasks = tasks@;
        let msg = channel.queue.remove(0);
        proof {
            assert(msg == q0[j]);
            assert(channel.queue@ =~= q0.skip(j + 1));
        }
        state.update(msg, tasks);
        proof {
            assert(q0.take(j + 1) =~= q0.take(j).push(q0[j]));
            lemma_fold_state_snoc(s0, q0.take(j), q0[j]);
            let extra = tasks@.skip(before_tasks.len() as int);
            assert(extra.len() == spec_step_effect_count(q0[j]));
            if spec_step_effect_count(q0[j]) == 1 {
                assert(extra[0] == tasks@.last());
            }
            lemma_fold_effects_snoc(s0, q0.take(j), q0[j], before_tasks.skip(t0), extra);
            assert(tasks@.skip(t0) =~= before_tasks.skip(t0) + extra);
            j = j + 1;
        }
    }
    proof {
        assert(q0.take(j) =~= q0);
    }
}

} // verus!
