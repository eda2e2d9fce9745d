use vstd::prelude::*;

verus! {

/// What the file system answered when asked whether a path exists, together
/// with the path it was asked about. Only [`probe`] makes one.
pub struct Probe {
    path: String,
    found: bool,
}

impl Probe {
    /// The path the file system was asked about.
    pub closed spec fn asked(&self) -> Seq<char> {
        self.path@
    }

    /// What the file system answered.
    pub closed spec fn answer(&self) -> bool {
        self.found
    }

    /// The path the file system was asked about.
    pub fn path(&self) -> (res: &str)
        ensures
            res@ == self.asked(),
    {
        self.path.as_str()
    }

    /// Whether the file system found the path.
    pub fn found(&self) -> (res: bool)
        ensures
            res == self.answer(),
    {
        self.found
    }
}

/// Asks the file system, through `std::path::Path::exists`, whether `path`
/// names an existing file or directory, and records the path asked about
/// with the answer. Claimed: the record holds exactly the path handed to the
/// call. Nothing is claimed of the answer: it depends on the disk at the
/// moment of the call.
#[verifier::external_body]
pub(crate) fn probe(path: String) -> (res: Probe)
    ensures
        res.asked() == path@,
{
    let found = std::path::Path::new(path.as_str()).exists();
    Probe { path, found }
}

/// What the file system answered when asked for the canonical form of a path,
/// together with the path it was asked about. Only [`resolve`] makes one.
pub struct Resolution {
    path: String,
    resolved: Option<String>,
}

impl Resolution {
    /// The path the file system was asked about.
    pub closed spec fn asked(&self) -> Seq<char> {
        self.path@
    }

    /// The canonical form the file system gave, if it gave one.
    pub closed spec fn answer(&self) -> Option<String> {
        self.resolved
    }

    /// The canonical form the file system gave, if it gave one.
    pub fn resolved(&self) -> (res: &Option<String>)
        ensures
            *res == self.answer(),
    {
        &self.resolved
    }
}

/// Resolves `path` with `std::path::Path::canonicalize`, renders the result
/// with `Path::display` (`None` where the file system refuses) and records
/// the path asked about with the answer. Claimed: the record holds exactly
/// the path handed to the call. Nothing is claimed of the answer: it depends
/// on the disk at the moment of the call.
#[verifier::external_body]
pub(crate) fn resolve(path: &str) -> (res: Resolution)
    ensures
        res.asked() == path@,
{
    let resolved = match std::path::Path::new(path).canonicalize() {
        Ok(p) => Some(p.display().to_string()),
        Err(_) => None,
    };
    Resolution { path: path.to_string(), resolved }
}

} // verus!
