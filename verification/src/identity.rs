use vstd::prelude::*;

verus! {

/// Source identity reported by the loaded TDLib library.
#[derive(Clone, Debug, PartialEq, Eq)]
pub struct TdLibBuildIdentity {
    version: String,
    commit_hash: String,
}

impl View for TdLibBuildIdentity {
    /// The version text and the commit text.
    type V = (Seq<char>, Seq<char>);

    closed spec fn view(&self) -> (Seq<char>, Seq<char>) {
        (self.version@, self.commit_hash@)
    }
}

impl TdLibBuildIdentity {
    /// Records the version and the full commit reported by TDLib.
    pub fn new(version: String, commit_hash: String) -> (identity: Self)
        ensures
            identity@ == (version@, commit_hash@),
    {
        Self { version, commit_hash }
    }

    /// Returns the TDLib semantic version.
    pub fn version(&self) -> (version: &str)
        ensures
            version@ == self@.0,
    {
        self.version.as_str()
    }

    /// Returns the full upstream Git commit reported by TDLib.
    pub fn commit_hash(&self) -> (commit_hash: &str)
        ensures
            commit_hash@ == self@.1,
    {
        self.commit_hash.as_str()
    }
}

} // verus!
