//! The configuration data model: link specifications and the error taxonomy.

use vstd::prelude::*;

verus! {

/// The kind of filesystem object a link points at. Some platforms need the
/// distinction at link-creation time; others accept it and ignore it.
#[derive(Clone, Copy, Debug, PartialEq, Eq, Structural)]
pub enum LinkKind {
    File,
    Directory,
}

impl LinkKind {
    /// The string tag under which this kind appears in a configuration file.
    pub fn to_string(&self) -> (r: String)
        ensures
            *self == LinkKind::File ==> r@ == "File"@,
            *self == LinkKind::Directory ==> r@ == "Directory"@,
    {
        match self {
            LinkKind::File => String::from_str("File"),
            LinkKind::Directory => String::from_str("Directory"),
        }
    }
}

/// The mathematical model of one configuration entry.
pub ghost struct SpecEntry {
    pub name: Seq<char>,
    pub kind: LinkKind,
    pub source_location: Option<Seq<char>>,
    pub target_location: Option<Seq<char>>,
}

/// One configuration entry: a label, a link kind, and the two locations.
/// Both locations are optional in the schema; an entry is actionable only
/// when both are present, which is enforced at resolution time.
#[derive(Clone, Debug, PartialEq, Eq)]
pub struct LinkSpec {
    pub name: String,
    pub kind: LinkKind,
    pub source_location: Option<String>,
    pub target_location: Option<String>,
}

impl View for LinkSpec {
    type V = SpecEntry;

    open spec fn view(&self) -> SpecEntry {
        SpecEntry {
            name: self.name@,
            kind: self.kind,
            source_location: self.source_location.deep_view(),
            target_location: self.target_location.deep_view(),
        }
    }
}

impl DeepView for LinkSpec {
    type V = SpecEntry;

    open spec fn deep_view(&self) -> SpecEntry {
        self.view()
    }
}

/// An entry is complete when both locations are present; only then can a
/// link be planned for it.
pub open spec fn complete(e: SpecEntry) -> bool {
    e.source_location is Some && e.target_location is Some
}

impl LinkSpec {
    /// Whether both locations are present.
    pub fn is_complete(&self) -> (r: bool)
        ensures
            r == complete(self@),
    {
        self.source_location.is_some() && self.target_location.is_some()
    }
}

/// Everything that can go wrong in a run, by kind.
#[derive(Clone, Copy, Debug, PartialEq, Eq, Structural)]
pub enum SetupError {
    /// The configuration file could not be read, or the working directory
    /// could not be determined while resolving a relative path.
    IOError,
    /// The configuration text is not well-formed JSON or does not match the
    /// configuration schema.
    ParseError,
    /// An entry lacks a mandatory location field.
    ConfigError,
    /// Creating a symbolic link failed for a reason other than the target
    /// already existing.
    LinkError,
}

} // verus!
