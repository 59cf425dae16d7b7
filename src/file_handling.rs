use vstd::prelude::*;

verus! {

/// What kind of filesystem failure stopped a load or a save.
#[derive(Clone, Copy, Debug, PartialEq, Eq, Structural)]
pub enum IoCategory {
    NotFound,
    PermissionDenied,
    InvalidData,
    Other,
}

/// Why a file operation did not complete.
#[derive(Clone, Copy, Debug, PartialEq, Eq, Structural)]
pub enum Error {
    /// The user cancelled the file picker or the save prompt.
    DialogClosed,
    /// The filesystem refused the read or the write.
    IOFailed(IoCategory),
}

/// The path, relative to a project directory, of the document opened at start.
pub open spec fn default_file_spec(project_dir: Seq<char>) -> Seq<char> {
    project_dir + "/src/main.rs"@
}

/// The document loaded on a cold start: `src/main.rs` under `project_dir`.
pub fn default_file(project_dir: &str) -> (r: String)
    ensures
        r@ == default_file_spec(project_dir@),
{
    let mut r = project_dir.to_string();
    r.append("/src/main.rs");
    r
}

impl Error {
    /// Whether this error came from the filesystem rather than from a
    /// cancelled prompt.
    pub fn is_io(&self) -> (r: bool)
        ensures
            r <==> self is IOFailed,
    {
        match self {
            Error::DialogClosed => false,
            Error::IOFailed(_) => true,
        }
    }
}

} // verus!
