use vstd::prelude::*;

verus! {

/// Names a page or a file either by its identifier or by its slug.
#[derive(Debug, Clone)]
pub enum Reference {
    Id(i64),
    Slug(String),
}

/// Which optional parts of a file a read should include.
#[derive(Debug, Clone, Copy, PartialEq, Eq, Structural)]
pub struct FileDetails {
    /// Include the contents of the file.
    pub data: bool,
}

impl Default for FileDetails {
    fn default() -> (r: FileDetails)
        ensures
            !r.data,
    {
        FileDetails { data: false }
    }
}

} // verus!
