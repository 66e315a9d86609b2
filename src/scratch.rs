use vstd::prelude::*;

verus! {

/// The location of a scratch directory. Creating and removing the directory
/// itself is left to the caller, which owns the filesystem access.
pub struct TempDir {
    path: String,
}

impl View for TempDir {
    type V = Seq<char>;

    closed spec fn view(&self) -> Seq<char> {
        self.path@
    }
}

impl TempDir {
    /// A scratch directory located at `path`.
    pub fn new(path: String) -> (r: TempDir)
        ensures
            r@ == path@,
    {
        TempDir { path }
    }

    /// Where the directory is.
    pub fn path(&self) -> (r: &str)
        ensures
            r@ == self@,
    {
        self.path.as_str()
    }
}

} // verus!
