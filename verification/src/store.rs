//! The slot store: exactly two file records (the `New` and `Current` slots),
//! an output path, and the two identifier allocators. Commands look records
//! up by slot, by path identifier, or by data identifier; an identifier that
//! no longer matches either slot is stale and resolves to nothing.

use vstd::prelude::*;

use crate::ids::{DataId, IdAllocator, PathId};
use crate::record::{spec_default_record, FileState, FileStateView};

verus! {

/// Selects which of the two file records a command addresses.
#[derive(Debug, Clone, Copy, PartialEq, Eq, Structural)]
pub enum FileSlot {
    New,
    Current,
}

/// The shared mutable state behind the command layer. The embedding program
/// guards the whole structure with one exclusive lock and holds that lock
/// only across command calls, never across file reads, decompression,
/// parsing or rendering.
#[derive(Debug)]
pub struct UiState {
    pub new_file: FileState,
    pub current_file: FileState,
    pub save_path: Option<String>,
    pub path_ids: IdAllocator,
    pub data_ids: IdAllocator,
}

pub ghost struct UiStateView {
    pub new_file: FileStateView,
    pub current_file: FileStateView,
    pub save_path: Option<Seq<char>>,
    pub path_next: u64,
    pub data_next: u64,
}

impl View for UiState {
    type V = UiStateView;

    open spec fn view(&self) -> UiStateView {
        UiStateView {
            new_file: self.new_file@,
            current_file: self.current_file@,
            save_path: match self.save_path {
                Some(ref p) => Some(p@),
                None => None,
            },
            path_next: self.path_ids.spec_next(),
            data_next: self.data_ids.spec_next(),
        }
    }
}

impl FileStateView {
    /// Every non-null identifier in the record was issued by the matching
    /// allocator, so it is strictly below the allocator's next value.
    pub open spec fn ids_below(self, path_next: u64, data_next: u64) -> bool {
        &&& self.path_id < path_next
        &&& self.data_id < data_next
    }

    /// Group indexes of a parsed session must fit in `u32`.
    pub open spec fn session_wf(self) -> bool {
        match self.session {
            Some(s) => s.wf(),
            None => true,
        }
    }
}

impl UiStateView {
    /// The store's invariant: allocators start at 1, every stored identifier
    /// is older than the allocators' next values, the two slots never share
    /// a non-null identifier, and parsed sessions are well formed.
    pub open spec fn wf(self) -> bool {
        &&& 1 <= self.path_next
        &&& 1 <= self.data_next
        &&& self.new_file.ids_below(self.path_next, self.data_next)
        &&& self.current_file.ids_below(self.path_next, self.data_next)
        &&& self.new_file.path_id == self.current_file.path_id ==> self.new_file.path_id == 0
        &&& self.new_file.data_id == self.current_file.data_id ==> self.new_file.data_id == 0
        &&& self.new_file.session_wf()
        &&& self.current_file.session_wf()
    }

    /// Room to allocate one more path identifier.
    pub open spec fn can_alloc_path(self) -> bool {
        self.path_next < u64::MAX
    }

    /// Room to allocate one more data identifier.
    pub open spec fn can_alloc_data(self) -> bool {
        self.data_next < u64::MAX
    }

    /// The record the given slot holds.
    pub open spec fn slot_record(self, slot: FileSlot) -> FileStateView {
        match slot {
            FileSlot::New => self.new_file,
            FileSlot::Current => self.current_file,
        }
    }

    /// The store with the given slot's record replaced.
    pub open spec fn with_slot_record(self, slot: FileSlot, r: FileStateView) -> UiStateView {
        match slot {
            FileSlot::New => UiStateView { new_file: r, ..self },
            FileSlot::Current => UiStateView { current_file: r, ..self },
        }
    }

    /// Whether the path identifier still resolves to a slot. The null
    /// sentinel never resolves.
    pub open spec fn resolves_path(self, id: u64) -> bool {
        id != 0 && (self.new_file.path_id == id || self.current_file.path_id == id)
    }

    /// The record the path identifier resolves to, checking New then
    /// Current.
    pub open spec fn path_record(self, id: u64) -> FileStateView {
        if self.new_file.path_id == id {
            self.new_file
        } else {
            self.current_file
        }
    }

    /// The store with the record the path identifier resolves to replaced.
    pub open spec fn with_path_record(self, id: u64, r: FileStateView) -> UiStateView {
        if self.new_file.path_id == id {
            UiStateView { new_file: r, ..self }
        } else {
            UiStateView { current_file: r, ..self }
        }
    }

    /// Whether the data identifier still resolves to a slot.
    pub open spec fn resolves_data(self, id: u64) -> bool {
        id != 0 && (self.new_file.data_id == id || self.current_file.data_id == id)
    }

    /// The record the data identifier resolves to, checking New then
    /// Current.
    pub open spec fn data_record(self, id: u64) -> FileStateView {
        if self.new_file.data_id == id {
            self.new_file
        } else {
            self.current_file
        }
    }

    /// The store with the record the data identifier resolves to replaced.
    pub open spec fn with_data_record(self, id: u64, r: FileStateView) -> UiStateView {
        if self.new_file.data_id == id {
            UiStateView { new_file: r, ..self }
        } else {
            UiStateView { current_file: r, ..self }
        }
    }
}

impl UiState {
    /// A store with two empty slots, no output path, and fresh allocators.
    pub fn new() -> (r: UiState)
        ensures
            r@.wf(),
            r@.new_file == spec_default_record(),
            r@.current_file == spec_default_record(),
            r@.save_path is None,
            r@.path_next == 1,
            r@.data_next == 1,
    {
        UiState {
            new_file: FileState::default(),
            current_file: FileState::default(),
            save_path: None,
            path_ids: IdAllocator::new(),
            data_ids: IdAllocator::new(),
        }
    }

    /// Whether both identifier families have room for one more value.
    /// Callers outside the verified crate test this before commands that
    /// allocate identifiers.
    pub fn has_id_capacity(&self) -> (r: bool)
        ensures
            r == (self@.can_alloc_path() && self@.can_alloc_data()),
    {
        self.path_ids.has_capacity() && self.data_ids.has_capacity()
    }

    /// Exclusive access to the record a slot holds.
    pub fn get_file_mut(&mut self, slot: FileSlot) -> (r: &mut FileState)
        ensures
            r@ == old(self)@.slot_record(slot),
            final(self)@ == old(self)@.with_slot_record(slot, final(r)@),
    {
        match slot {
            FileSlot::New => &mut self.new_file,
            FileSlot::Current => &mut self.current_file,
        }
    }

    /// The record whose path identifier equals `id`, checking New then
    /// Current; nothing if neither matches or `id` is null.
    pub fn get_file_for_path_id(&self, id: PathId) -> (r: Option<&FileState>)
        ensures
            match r {
                Some(f) => self@.resolves_path(id.spec_value()) && f@ == self@.path_record(
                    id.spec_value(),
                ),
                None => !self@.resolves_path(id.spec_value()),
            },
    {
        if id == PathId::null() {
            None
        } else if self.new_file.path_id == id {
            Some(&self.new_file)
        } else if self.current_file.path_id == id {
            Some(&self.current_file)
        } else {
            None
        }
    }

    /// The record whose data identifier equals `id`, checking New then
    /// Current; nothing if neither matches or `id` is null.
    pub fn get_file_for_data_id(&self, id: DataId) -> (r: Option<&FileState>)
        ensures
            match r {
                Some(f) => self@.resolves_data(id.spec_value()) && f@ == self@.data_record(
                    id.spec_value(),
                ),
                None => !self@.resolves_data(id.spec_value()),
            },
    {
        if id == DataId::null() {
            None
        } else if self.new_file.data_id == id {
            Some(&self.new_file)
        } else if self.current_file.data_id == id {
            Some(&self.current_file)
        } else {
            None
        }
    }
}

impl Default for UiState {
    fn default() -> (r: UiState)
        ensures
            r@.wf(),
            r@.new_file == spec_default_record(),
            r@.current_file == spec_default_record(),
            r@.save_path is None,
            r@.path_next == 1,
            r@.data_next == 1,
    {
        UiState::new()
    }
}

} // verus!
