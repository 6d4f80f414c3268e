//! Resolution of command paths against the file system.

use crate::options::{option_text, Service};
use vstd::prelude::*;

verus! {

/// `std::path::Path::canonicalize`, on a path given and returned as text:
/// the canonical, absolute form of `path`, or `None` where the path cannot
/// be resolved. Which form it is depends on the file system at the time of
/// the call; the contract claims only that an absolute form is never the
/// empty text.
#[verifier::external_body]
fn canonical_form(path: &str) -> (resolved: Option<String>)
    ensures
        resolved matches Some(form) ==> form@.len() > 0,
{
    match std::path::Path::new(path).canonicalize() {
        Ok(canonical) => Some(format!("{}", canonical.display())),
        Err(_) => None,
    }
}

/// The path to show for `path`, given the outcome of resolving it: the
/// resolved form, or `path` unchanged where resolution failed.
pub fn resolved_or_given(path: &str, outcome: Option<String>) -> (shown: String)
    ensures
        shown@ == (match outcome {
            Some(resolved) => resolved@,
            None => path@,
        }),
{
    match outcome {
        Some(resolved) => resolved,
        None => path.to_owned(),
    }
}

/// Whether `shown` can be what is shown for the path `given`: the path
/// itself, unchanged, or a resolved form, which is never empty.
pub open spec fn shows(shown: Seq<char>, given: Seq<char>) -> bool {
    shown == given || shown.len() > 0
}

/// Resolves `path` to its canonical, absolute form where the file system
/// allows it, and returns `path` unchanged where it does not. Never fails.
/// Which of the two happens is decided by the file system alone.
pub fn canonicalize(path: &str) -> (shown: String)
    ensures
        shown@ == path@ || shown@.len() > 0,
{
    let outcome = canonical_form(path);
    resolved_or_given(path, outcome)
}

/// The command paths of a record as they are written into the service unit.
#[derive(Clone, Debug, PartialEq, Eq)]
pub struct ResolvedPaths {
    pub exec_start: String,
    pub exec_reload: Option<String>,
    pub exec_stop: Option<String>,
}

/// The mathematical value of [`ResolvedPaths`].
pub struct ResolvedPathsView {
    pub exec_start: Seq<char>,
    pub exec_reload: Option<Seq<char>>,
    pub exec_stop: Option<Seq<char>>,
}

impl View for ResolvedPaths {
    type V = ResolvedPathsView;

    open spec fn view(&self) -> ResolvedPathsView {
        ResolvedPathsView {
            exec_start: self.exec_start@,
            exec_reload: option_text(self.exec_reload),
            exec_stop: option_text(self.exec_stop),
        }
    }
}

impl ResolvedPathsView {
    /// These paths stand for the command paths of `service`: a reload or
    /// stop command is present here exactly where the record has one, and
    /// each path is that of the record, unchanged, or a resolved form of
    /// it, which is never empty.
    pub open spec fn stands_for(self, service: crate::options::ServiceView) -> bool {
        &&& shows(self.exec_start, service.exec_start)
        &&& self.exec_reload is Some <==> service.exec_reload is Some
        &&& self.exec_reload matches Some(text) ==> shows(text, service.exec_reload->Some_0)
        &&& self.exec_stop is Some <==> service.exec_stop is Some
        &&& self.exec_stop matches Some(text) ==> shows(text, service.exec_stop->Some_0)
    }
}

fn canonicalize_optional(path: &Option<String>) -> (shown: Option<String>)
    ensures
        shown is Some <==> path is Some,
        shown matches Some(text) ==> shows(text@, path->Some_0@),
{
    match path {
        Some(path) => Some(canonicalize(path.as_str())),
        None => None,
    }
}

impl Service {
    /// Resolves the three command paths of the record against the file
    /// system, each as [`canonicalize`] does.
    pub fn resolve_paths(&self) -> (paths: ResolvedPaths)
        ensures
            paths@.stands_for(self@),
    {
        ResolvedPaths {
            exec_start: canonicalize(self.exec_start.as_str()),
            exec_reload: canonicalize_optional(&self.exec_reload),
            exec_stop: canonicalize_optional(&self.exec_stop),
        }
    }

    /// The command paths of the record as they were given, unresolved.
    pub fn unresolved_paths(&self) -> (paths: ResolvedPaths)
        ensures
            paths@.exec_start == self@.exec_start,
            paths@.exec_reload == self@.exec_reload,
            paths@.exec_stop == self@.exec_stop,
            paths@.stands_for(self@),
    {
        ResolvedPaths {
            exec_start: self.exec_start.clone(),
            exec_reload: self.exec_reload.clone(),
            exec_stop: self.exec_stop.clone(),
        }
    }
}

} // verus!
