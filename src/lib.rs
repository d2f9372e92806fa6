//! Back end of a mod manager: finds mod-version conflicts in a game log,
//! names the log files to look for, picks the manifest out of a mod archive,
//! and words the errors that the front end shows.

pub mod text;
pub mod error;
pub mod conflict;
pub mod entry;
pub mod manifest;
