//! The file record held in each slot, and the read-only status derived from
//! its fields.

use vstd::prelude::*;

use crate::ids::{DataId, PathId};
use crate::session::{SessionHandle, SessionView};

verus! {

/// The derived, never independently stored status of a file record.
#[derive(Debug, Clone, Copy, PartialEq, Eq, Structural)]
pub enum FileStatus {
    /// No path selected.
    Empty,
    /// Path selected so ready for reading.
    Found,
    /// Data loaded but it was compressed.
    Compressed,
    /// Data read and uncompressed.
    Uncompressed,
    /// Read data has been parsed as JSON.
    Parsed,
}

impl Default for FileStatus {
    fn default() -> (r: FileStatus)
        ensures
            r == FileStatus::Empty,
    {
        FileStatus::Empty
    }
}

/// One mutable file slot's contents: the identifiers of the current path and
/// data generation, the selected path, the raw bytes, and the parsed session.
#[derive(Debug)]
pub struct FileState {
    pub path_id: PathId,
    pub data_id: DataId,
    pub file_path: Option<String>,
    pub is_compressed: bool,
    pub data: Option<Vec<u8>>,
    pub session: Option<SessionHandle>,
}

pub ghost struct FileStateView {
    pub path_id: u64,
    pub data_id: u64,
    pub file_path: Option<Seq<char>>,
    pub is_compressed: bool,
    pub data: Option<Seq<u8>>,
    pub session: Option<SessionView>,
}

impl View for FileState {
    type V = FileStateView;

    open spec fn view(&self) -> FileStateView {
        FileStateView {
            path_id: self.path_id.spec_value(),
            data_id: self.data_id.spec_value(),
            file_path: match self.file_path {
                Some(ref p) => Some(p@),
                None => None,
            },
            is_compressed: self.is_compressed,
            data: match self.data {
                Some(ref d) => Some(d@),
                None => None,
            },
            session: match self.session {
                Some(ref s) => Some(s@),
                None => None,
            },
        }
    }
}

/// The record a freshly reset slot holds: all identifiers null, nothing
/// selected or loaded, and the compressed flag defaulted to true.
pub open spec fn spec_default_record() -> FileStateView {
    FileStateView {
        path_id: 0,
        data_id: 0,
        file_path: None,
        is_compressed: true,
        data: None,
        session: None,
    }
}

/// Status derivation: a pure function of the record fields. Precedence, top
/// to bottom: Parsed if a session is present; else Compressed or Uncompressed
/// by the compressed flag if data is present; else Found if a path is
/// present; else Empty.
pub open spec fn spec_status(r: FileStateView) -> FileStatus {
    if r.session is Some {
        FileStatus::Parsed
    } else if r.data is Some {
        if r.is_compressed {
            FileStatus::Compressed
        } else {
            FileStatus::Uncompressed
        }
    } else if r.file_path is Some {
        FileStatus::Found
    } else {
        FileStatus::Empty
    }
}

impl Default for FileState {
    fn default() -> (r: FileState)
        ensures
            r@ == spec_default_record(),
    {
        FileState {
            path_id: PathId::null(),
            data_id: DataId::null(),
            file_path: None,
            is_compressed: true,
            data: None,
            session: None,
        }
    }
}

impl FileState {
    /// Derives the read-only summary of this record.
    pub fn to_info(&self) -> (r: FileInfo)
        ensures
            r@ == spec_info_of(self@),
    {
        FileInfo {
            path_id: self.path_id,
            data_id: self.data_id,
            status: if self.session.is_some() {
                FileStatus::Parsed
            } else if self.data.is_some() {
                if self.is_compressed {
                    FileStatus::Compressed
                } else {
                    FileStatus::Uncompressed
                }
            } else if self.file_path.is_some() {
                FileStatus::Found
            } else {
                FileStatus::Empty
            },
            file_path: match &self.file_path {
                Some(p) => Some(p.clone()),
                None => None,
            },
        }
    }
}

/// The summary [`FileState::to_info`] derives from a record.
pub open spec fn spec_info_of(r: FileStateView) -> FileInfoView {
    FileInfoView {
        path_id: r.path_id,
        data_id: r.data_id,
        status: spec_status(r),
        file_path: r.file_path,
    }
}

/// The read-only summary of one slot, as handed across the command surface.
#[derive(Debug, Clone)]
pub struct FileInfo {
    pub path_id: PathId,
    pub data_id: DataId,
    pub status: FileStatus,
    pub file_path: Option<String>,
}

pub ghost struct FileInfoView {
    pub path_id: u64,
    pub data_id: u64,
    pub status: FileStatus,
    pub file_path: Option<Seq<char>>,
}

impl View for FileInfo {
    type V = FileInfoView;

    open spec fn view(&self) -> FileInfoView {
        FileInfoView {
            path_id: self.path_id.spec_value(),
            data_id: self.data_id.spec_value(),
            status: self.status,
            file_path: match self.file_path {
                Some(ref p) => Some(p@),
                None => None,
            },
        }
    }
}

impl FileInfo {
    /// The text shown for this record: its file path, or nothing when no
    /// path is selected.
    pub fn display_string(&self) -> (r: String)
        ensures
            match self@.file_path {
                Some(p) => r@ == p,
                None => r@.len() == 0,
            },
    {
        match &self.file_path {
            Some(p) => p.clone(),
            None => String::new(),
        }
    }
}

} // verus!
