//! Laws of the command layer: properties that relate several commands,
//! proved over the spec-level transitions that the commands' contracts are
//! stated with.

use vstd::prelude::*;

use crate::commands::{
    spec_commit_new_file, spec_finish_decompress, spec_finish_parse, spec_forget_data,
    spec_forget_path, spec_forget_record, spec_set_data, spec_set_open_path,
};
use crate::paths::spec_is_lz4_path;
use crate::record::{spec_status, FileStateView, FileStatus};
use crate::session::SessionView;
use crate::store::{FileSlot, UiStateView};

verus! {

/// Law: the status derivation's precedence, spelled out case by case:
/// a parsed session wins, then loaded data (split by the compressed flag),
/// then a selected path, and Empty only when the record holds nothing.
pub proof fn lemma_status_precedence(r: FileStateView)
    ensures
        r.session is Some ==> spec_status(r) == FileStatus::Parsed,
        r.session is None && r.data is Some && r.is_compressed ==> spec_status(r)
            == FileStatus::Compressed,
        r.session is None && r.data is Some && !r.is_compressed ==> spec_status(r)
            == FileStatus::Uncompressed,
        r.session is None && r.data is None && r.file_path is Some ==> spec_status(r)
            == FileStatus::Found,
        r.session is None && r.data is None && r.file_path is None ==> spec_status(r)
            == FileStatus::Empty,
{
}

/// Law: after `commit_new_file`, Current equals the pre-call New record
/// exactly; New keeps the pre-call New record's file path but carries a
/// path identifier that differs from the pre-call one, and is otherwise
/// default.
pub proof fn lemma_commit_new_file(s: UiStateView)
    requires
        s.wf(),
        s.can_alloc_path(),
    ensures
        spec_commit_new_file(s).current_file == s.new_file,
        spec_commit_new_file(s).new_file.file_path == s.new_file.file_path,
        spec_commit_new_file(s).new_file.path_id != s.new_file.path_id,
        spec_commit_new_file(s).new_file.data_id == 0,
        spec_commit_new_file(s).new_file.data is None,
        spec_commit_new_file(s).new_file.session is None,
        spec_commit_new_file(s).new_file.is_compressed,
        spec_commit_new_file(s).wf(),
{
}

/// Law: two commits in a row. The second commit copies into Current the
/// default-with-preserved-path record that the first commit left in New:
/// same file path, the path identifier the first commit issued, and
/// everything else default, so Current's status is Found when a path is
/// set, else Empty. The counter needs room for the two fresh identifiers.
pub proof fn lemma_double_commit(s: UiStateView)
    requires
        s.wf(),
        s.path_next < u64::MAX - 1,
    ensures
        ({
            let s1 = spec_commit_new_file(s);
            let s2 = spec_commit_new_file(s1);
            &&& s2.current_file == s1.new_file
            &&& s2.current_file.file_path == s.new_file.file_path
            &&& s2.current_file.path_id == s1.new_file.path_id
            &&& s2.current_file.path_id != s.new_file.path_id
            &&& s2.current_file.data_id == 0
            &&& s2.current_file.data is None
            &&& s2.current_file.session is None
            &&& s2.current_file.is_compressed
            &&& s2.new_file.path_id != s1.new_file.path_id
            &&& spec_status(s2.current_file) == if s.new_file.file_path is Some {
                FileStatus::Found
            } else {
                FileStatus::Empty
            }
            &&& s2.wf()
        }),
{
}

/// Law: assigning a new path to a slot supersedes the slot's previous
/// identifiers: a fresh path identifier resolves, and neither the old path
/// identifier nor the old data identifier resolves to any slot afterwards.
pub proof fn lemma_set_open_path_supersedes(s: UiStateView, slot: FileSlot, path: Seq<char>)
    requires
        s.wf(),
        s.can_alloc_path(),
    ensures
        ({
            let r0 = s.slot_record(slot);
            let s1 = spec_set_open_path(s, slot, path);
            &&& s1.resolves_path(s.path_next)
            &&& r0.path_id != 0 ==> !s1.resolves_path(r0.path_id)
            &&& r0.data_id != 0 ==> !s1.resolves_data(r0.data_id)
        }),
{
}

/// Law: after `forget_path(id)`, neither the path identifier nor the
/// forgotten record's old data identifier resolves to any slot.
pub proof fn lemma_forget_path_invalidates(s: UiStateView, id: u64)
    requires
        s.wf(),
        s.resolves_path(id),
    ensures
        !spec_forget_path(s, id).resolves_path(id),
        !spec_forget_path(s, id).resolves_data(s.path_record(id).data_id),
{
}

/// Law: `forget_data(id)` preserves the owning record's path identifier and
/// file path and resets everything else to the default.
pub proof fn lemma_forget_data_preserves_path(s: UiStateView, id: u64)
    requires
        s.wf(),
        s.resolves_data(id),
    ensures
        s.new_file.data_id == id ==> spec_forget_data(s, id).new_file == spec_forget_record(
            s.new_file,
        ) && spec_forget_data(s, id).current_file == s.current_file,
        s.new_file.data_id != id ==> spec_forget_data(s, id).current_file == spec_forget_record(
            s.current_file,
        ) && spec_forget_data(s, id).new_file == s.new_file,
{
}

/// Law: a record with its data forgotten keeps its path identifier and file
/// path, and derives status Found when a path is present, else Empty.
pub proof fn lemma_forget_record_status(r: FileStateView)
    ensures
        spec_forget_record(r).path_id == r.path_id,
        spec_forget_record(r).file_path == r.file_path,
        r.file_path is Some ==> spec_status(spec_forget_record(r)) == FileStatus::Found,
        r.file_path is None ==> spec_status(spec_forget_record(r)) == FileStatus::Empty,
{
}

/// Law: after `set_open_path` and then `set_data` with the identifier it
/// returned, the record's status is Compressed exactly when the path ends
/// in an lz4-style extension, else Uncompressed, and the record holds the
/// supplied bytes.
pub proof fn lemma_open_then_set_data_status(
    s: UiStateView,
    slot: FileSlot,
    path: Seq<char>,
    data: Seq<u8>,
)
    requires
        s.wf(),
        s.can_alloc_path(),
        s.can_alloc_data(),
    ensures
        ({
            let id = s.path_next;
            let s1 = spec_set_open_path(s, slot, path);
            let s2 = spec_set_data(s1, id, data);
            &&& s1.resolves_path(id)
            &&& s1.path_record(id).file_path == Some(path)
            &&& s2.path_record(id).data == Some(data)
            &&& spec_status(s2.path_record(id)) == if spec_is_lz4_path(path) {
                FileStatus::Compressed
            } else {
                FileStatus::Uncompressed
            }
        }),
{
}

/// Law: `finish_decompress_data` on a record in status Compressed keeps the
/// same data identifier and leaves the record in status Uncompressed.
pub proof fn lemma_decompress_keeps_data_id(s: UiStateView, id: u64, bytes: Seq<u8>)
    requires
        s.wf(),
        s.resolves_data(id),
        spec_status(s.data_record(id)) == FileStatus::Compressed,
    ensures
        spec_finish_decompress(s, id, bytes).resolves_data(id),
        spec_finish_decompress(s, id, bytes).data_record(id).data_id == s.data_record(id).data_id,
        spec_status(spec_finish_decompress(s, id, bytes).data_record(id))
            == FileStatus::Uncompressed,
{
}

/// Law: `finish_parse_session_data` on a record in status Uncompressed
/// leaves it in status Parsed with the raw payload cleared, under the same
/// data identifier.
pub proof fn lemma_parse_clears_raw(s: UiStateView, id: u64, session: SessionView)
    requires
        s.wf(),
        s.resolves_data(id),
        spec_status(s.data_record(id)) == FileStatus::Uncompressed,
    ensures
        spec_finish_parse(s, id, session).resolves_data(id),
        spec_finish_parse(s, id, session).data_record(id).data_id == s.data_record(id).data_id,
        spec_status(spec_finish_parse(s, id, session).data_record(id)) == FileStatus::Parsed,
        spec_finish_parse(s, id, session).data_record(id).data is None,
{
}

} // verus!
