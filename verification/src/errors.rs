//! The errors the command layer reports. Every variant corresponds to one
//! fixed human-readable message; I/O and codec failures, whose messages carry
//! outside context, are formatted by the embedding program instead.

use vstd::prelude::*;

verus! {

/// Why a command refused to run or to commit its result.
#[derive(Debug, Clone, Copy, PartialEq, Eq, Structural)]
pub enum CommandError {
    /// The path identifier no longer resolves to any slot.
    PathIdExpired,
    /// The record has no file path yet.
    FileNotSelected,
    /// The path identifier expired while file data was being read.
    PathIdExpiredWhileReading,
    /// The data identifier no longer resolves to any slot.
    DataIdExpired,
    /// The record has no raw data.
    DataNotLoaded,
    /// Decompression was requested but the data is already uncompressed.
    AlreadyUncompressed,
    /// The data identifier expired while the data was being decompressed.
    DataIdExpiredWhileDecompressing,
    /// Parsing was requested but the data is still compressed.
    StillCompressed,
    /// The data identifier expired while the data was being parsed.
    DataIdExpiredWhileParsing,
    /// Groups were requested before the session was parsed.
    SessionNotParsedForGroups,
    /// Link output was requested before the session was parsed.
    SessionNotParsedForLinks,
    /// Saving was requested but no save path is configured.
    NoSavePath,
}

impl CommandError {
    /// The message each error surfaces as.
    pub open spec fn spec_message(self) -> Seq<char> {
        match self {
            CommandError::PathIdExpired => "path id has expired"@,
            CommandError::FileNotSelected => "file hasn't been selected yet"@,
            CommandError::PathIdExpiredWhileReading => "path id expired while reading file data"@,
            CommandError::DataIdExpired => "file id has expired"@,
            CommandError::DataNotLoaded => "file data not loaded"@,
            CommandError::AlreadyUncompressed => "the data was already uncompressed"@,
            CommandError::DataIdExpiredWhileDecompressing => "file id expired while decompressing"@,
            CommandError::StillCompressed => "can't parse compressed data"@,
            CommandError::DataIdExpiredWhileParsing => "file id expired while parsing JSON"@,
            CommandError::SessionNotParsedForGroups => "must deserialize JSON sessionstore data before tab groups can be inspected"@,
            CommandError::SessionNotParsedForLinks => "must deserialize JSON sessionstore data before converting tabs to links"@,
            CommandError::NoSavePath => "no save path selected"@,
        }
    }

    /// The message as an owned string, for display to the caller.
    pub fn message(&self) -> (r: String)
        ensures
            r@ == self.spec_message(),
    {
        match self {
            CommandError::PathIdExpired => "path id has expired".to_owned(),
            CommandError::FileNotSelected => "file hasn't been selected yet".to_owned(),
            CommandError::PathIdExpiredWhileReading => "path id expired while reading file data".to_owned(),
            CommandError::DataIdExpired => "file id has expired".to_owned(),
            CommandError::DataNotLoaded => "file data not loaded".to_owned(),
            CommandError::AlreadyUncompressed => "the data was already uncompressed".to_owned(),
            CommandError::DataIdExpiredWhileDecompressing => "file id expired while decompressing".to_owned(),
            CommandError::StillCompressed => "can't parse compressed data".to_owned(),
            CommandError::DataIdExpiredWhileParsing => "file id expired while parsing JSON".to_owned(),
            CommandError::SessionNotParsedForGroups => "must deserialize JSON sessionstore data before tab groups can be inspected".to_owned(),
            CommandError::SessionNotParsedForLinks => "must deserialize JSON sessionstore data before converting tabs to links".to_owned(),
            CommandError::NoSavePath => "no save path selected".to_owned(),
        }
    }
}

} // verus!
