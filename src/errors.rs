use vstd::prelude::*;

verus! {

/// What can go wrong between a user's path and the extraction command.
#[derive(Debug, Clone, PartialEq, Eq)]
pub enum ArchiveError {
    /// The path given by the user could not be resolved; it holds that path.
    UnknownInputFile(String),
    /// The resolved path matched no known suffix; it holds the resolved path.
    UnrecognizedArchive(String),
    /// The extraction tool could not be launched; it holds the system's message.
    ExecError(String),
}

} // verus!
