//! Resolving an entry's locations to absolute, normalized paths.

use vstd::prelude::*;

use crate::config::{complete, LinkSpec, SetupError};

use path_absolutize::Absolutize;
use std::path::Path;

verus! {

/// An absolute path: it starts at the root.
pub open spec fn is_absolute(s: Seq<char>) -> bool {
    s.len() > 0 && s[0] == '/'
}

/// An absolute path already in normal form: no empty segment (no `//` and
/// no trailing separator except in the root path itself), and no `.` or
/// `..` segment. Resolving such a path changes nothing.
pub open spec fn is_normal_absolute(s: Seq<char>) -> bool {
    &&& s.len() > 0
    &&& s[0] == '/'
    &&& (s.len() > 1 ==> s[s.len() - 1] != '/')
    &&& (forall|i: int| 0 < i < s.len() ==> !(s[i - 1] == '/' && #[trigger] s[i] == '/'))
    &&& (forall|i: int|
        0 < i < s.len() && s[i - 1] == '/' && #[trigger] s[i] == '.' ==> (i + 1 < s.len() && s[i
            + 1] != '/' && !(s[i + 1] == '.' && (i + 2 == s.len() || s[i + 2] == '/'))))
}

/// The normal form of an absolute path: what resolving it yields — `.` and
/// empty segments dropped, `..` segments applied (the root's parent being
/// the root itself). On an absolute path the resolution reads neither the
/// working directory nor the filesystem, so it is a function of the path
/// alone.
pub uninterp spec fn normalized_absolute(s: Seq<char>) -> Seq<char>;

/// Relies on `path_absolutize::Absolutize::absolutize` for `std::path::Path`
/// under Unix path semantics and, for relative inputs, on
/// `std::env::current_dir` returning the working directory as an absolute
/// path: the call resolves the path against the working directory and
/// collapses `.` and `..` segments without touching the filesystem. An
/// absolute input never reads the working directory and never fails, and an
/// absolute input already in normal form comes back unchanged. `None` stands
/// for the two failures: the working directory could not be read, or the
/// result was not valid UTF-8. The result is always in normal form: the
/// call joins plain segments with single separators, dropping `.` and
/// resolving `..` as it goes, and the working directory comes without `.`
/// or `..` segments.
#[verifier::external_body]
fn absolutize_str(p: &str) -> (r: Option<String>)
    ensures
        r is Some ==> is_normal_absolute(r->0@),
        is_absolute(p@) ==> (r is Some && r->0@ == normalized_absolute(p@)),
        is_normal_absolute(p@) ==> (r is Some && r->0@ == p@),
{
    match Path::new(p).absolutize() {
        Ok(resolved) => match resolved.to_str() {
            Some(s) => Some(s.to_owned()),
            None => None,
        },
        Err(_) => None,
    }
}

/// The absolute, normalized form of one entry's source and target.
#[derive(Clone, Debug, PartialEq, Eq)]
pub struct ResolvedPair {
    pub source: String,
    pub target: String,
}

/// Resolve one entry's locations.
///
/// An entry missing either location is rejected with a `ConfigError` — that,
/// and nothing else, is what `ConfigError` means. When both locations are
/// present, both are resolved to absolute paths in normal form — no `.`,
/// `..` or empty segment remains. An absolute location resolves to exactly
/// its own normal form ([`normalized_absolute`]), so an already-normalized
/// absolute location comes back unchanged. `IOError` is returned only when
/// the working directory, needed for a relative location, cannot be read
/// (or its path is not valid UTF-8); with absolute locations that cannot
/// happen.
pub fn resolve_entry(entry: &LinkSpec) -> (r: Result<ResolvedPair, SetupError>)
    ensures
        !complete(entry@) <==> r == Err::<ResolvedPair, SetupError>(SetupError::ConfigError),
        r is Err ==> (r->Err_0 == SetupError::ConfigError || r->Err_0 == SetupError::IOError),
        r matches Ok(p) ==> complete(entry@) && is_normal_absolute(p.source@)
            && is_normal_absolute(p.target@),
        complete(entry@) && is_absolute(entry@.source_location->0) && is_absolute(
            entry@.target_location->0,
        ) ==> (r matches Ok(p) && p.source@ == normalized_absolute(entry@.source_location->0)
            && p.target@ == normalized_absolute(entry@.target_location->0)),
        complete(entry@) && is_normal_absolute(entry@.source_location->0) && is_normal_absolute(
            entry@.target_location->0,
        ) ==> (r matches Ok(p) && p.source@ == entry@.source_location->0 && p.target@
            == entry@.target_location->0),
{
    let source = match &entry.source_location {
        Some(s) => s,
        None => {
            return Err(SetupError::ConfigError);
        },
    };
    let target = match &entry.target_location {
        Some(s) => s,
        None => {
            return Err(SetupError::ConfigError);
        },
    };
    let resolved_source = match absolutize_str(source.as_str()) {
        Some(a) => a,
        None => {
            return Err(SetupError::IOError);
        },
    };
    let resolved_target = match absolutize_str(target.as_str()) {
        Some(a) => a,
        None => {
            return Err(SetupError::IOError);
        },
    };
    Ok(ResolvedPair { source: resolved_source, target: resolved_target })
}

/// The progress line announcing one link, shown before the attempt:
/// `Linking: "<source>" to "<target>"`.
pub open spec fn spec_linking_line(source: Seq<char>, target: Seq<char>) -> Seq<char> {
    "Linking: \""@ + source + "\" to \""@ + target + "\""@
}

/// Render the progress line for one resolved pair.
pub fn linking_line(pair: &ResolvedPair) -> (r: String)
    ensures
        r@ == spec_linking_line(pair.source@, pair.target@),
{
    let mut line = String::from_str("Linking: \"");
    line.append(pair.source.as_str());
    line.append("\" to \"");
    line.append(pair.target.as_str());
    line.append("\"");
    line
}

} // verus!
