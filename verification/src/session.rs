//! The run itself, as a state machine: one link job per complete entry, in
//! document order, failing fast on the first bad entry.
//!
//! The caller drives the loop and performs what the library cannot decide
//! alone — printing the progress line, checking whether the target exists,
//! and creating the link — and reports the outcome back. Everything decided
//! here is verified: which entry comes next, when the run aborts, what the
//! progress line says, and what to do when the target already exists.

use vstd::prelude::*;

use crate::config::{complete, LinkKind, LinkSpec, SetupError, SpecEntry};
use crate::resolve::{is_absolute, is_normal_absolute, linking_line, resolve_entry, ResolvedPair};
use crate::resolve::spec_linking_line;

verus! {

/// What to do at one target path.
#[derive(Clone, Copy, Debug, PartialEq, Eq, Structural)]
pub enum LinkAction {
    /// A filesystem entry already stands at the target: leave it alone and
    /// treat the entry as satisfied.
    Skip,
    /// Create a symbolic link declared as pointing at a file.
    CreateFileLink,
    /// Create a symbolic link declared as pointing at a directory.
    CreateDirLink,
}

/// The skip-if-exists policy: an occupied target is left alone; a free one
/// gets a link of the declared kind.
pub open spec fn spec_link_action(kind: LinkKind, target_exists: bool) -> LinkAction {
    if target_exists {
        LinkAction::Skip
    } else {
        match kind {
            LinkKind::File => LinkAction::CreateFileLink,
            LinkKind::Directory => LinkAction::CreateDirLink,
        }
    }
}

/// Decide what to do at one target path, as [`spec_link_action`] says.
pub fn link_action(kind: LinkKind, target_exists: bool) -> (r: LinkAction)
    ensures
        r == spec_link_action(kind, target_exists),
{
    if target_exists {
        LinkAction::Skip
    } else {
        match kind {
            LinkKind::File => LinkAction::CreateFileLink,
            LinkKind::Directory => LinkAction::CreateDirLink,
        }
    }
}

/// Running the tool again over targets it has already linked is a no-op:
/// once anything stands at the target, the planned action is to skip,
/// whatever the declared kind; only a free target is ever linked.
pub proof fn lemma_link_idempotent(kind: LinkKind)
    ensures
        spec_link_action(kind, true) == LinkAction::Skip,
        spec_link_action(kind, false) != LinkAction::Skip,
{
}

/// The index of the first entry missing a location, or the length when
/// every entry is complete: the fail-fast abort strikes there, so exactly
/// the entries before it get a progress line and a link attempt.
pub open spec fn first_incomplete(es: Seq<SpecEntry>) -> int
    decreases es.len(),
{
    if es.len() == 0 {
        0
    } else if !complete(es[0]) {
        0
    } else {
        1 + first_incomplete(es.drop_first())
    }
}

/// How many entries have both locations present.
pub open spec fn count_complete(es: Seq<SpecEntry>) -> int
    decreases es.len(),
{
    if es.len() == 0 {
        0
    } else {
        count_complete(es.drop_first()) + if complete(es[0]) {
            1int
        } else {
            0int
        }
    }
}

/// `first_incomplete` is what its name says: every entry before it is
/// complete, and it is either the length or an incomplete entry's index.
pub proof fn lemma_first_incomplete_bounds(es: Seq<SpecEntry>)
    ensures
        0 <= first_incomplete(es) <= es.len(),
        forall|j: int| 0 <= j < first_incomplete(es) ==> complete(#[trigger] es[j]),
        first_incomplete(es) < es.len() ==> !complete(es[first_incomplete(es)]),
    decreases es.len(),
{
    if es.len() > 0 && complete(es[0]) {
        lemma_first_incomplete_bounds(es.drop_first());
        assert forall|j: int| 0 <= j < first_incomplete(es) implies complete(es[j]) by {
            if j > 0 {
                assert(es[j] == es.drop_first()[j - 1]);
            }
        }
    }
}

/// An index below which everything is complete lies at or below the first
/// incomplete index.
pub proof fn lemma_first_incomplete_at_least(es: Seq<SpecEntry>, i: int)
    requires
        0 <= i <= es.len(),
        forall|j: int| 0 <= j < i ==> complete(#[trigger] es[j]),
    ensures
        first_incomplete(es) >= i,
    decreases i,
{
    if i > 0 {
        assert(complete(es[0]));
        assert forall|j: int| 0 <= j < i - 1 implies complete(es.drop_first()[j]) by {
            assert(es.drop_first()[j] == es[j + 1]);
        }
        lemma_first_incomplete_at_least(es.drop_first(), i - 1);
        assert(first_incomplete(es) == 1 + first_incomplete(es.drop_first()));
    } else {
        lemma_first_incomplete_bounds(es);
    }
}

/// For a well-formed configuration — every entry has both locations — the
/// fail-fast abort never strikes, and the number of progress lines, one per
/// entry handed out, equals the number of entries with both locations
/// present.
pub proof fn lemma_well_formed_runs_whole(es: Seq<SpecEntry>)
    requires
        forall|j: int| 0 <= j < es.len() ==> complete(#[trigger] es[j]),
    ensures
        first_incomplete(es) == es.len(),
        count_complete(es) == es.len(),
    decreases es.len(),
{
    if es.len() > 0 {
        assert(forall|j: int| 0 <= j < es.len() - 1 ==> complete(#[trigger] es.drop_first()[j]));
        lemma_well_formed_runs_whole(es.drop_first());
    }
}

/// However far a fail-fast run gets — `n` entries handed out, each of them
/// complete, as [`Session::wf`] guarantees of `handed_out` — the number of
/// progress lines printed, one per handed-out entry, equals the number of
/// entries with both locations present among those processed.
pub proof fn lemma_lines_count_complete_prefix(es: Seq<SpecEntry>, n: int)
    requires
        0 <= n <= es.len(),
        forall|j: int| 0 <= j < n ==> complete(#[trigger] es[j]),
    ensures
        count_complete(es.take(n)) == n,
    decreases n,
{
    if n > 0 {
        assert(complete(es.take(n)[0]));
        assert(es.take(n).drop_first() =~= es.drop_first().take(n - 1));
        assert forall|j: int| 0 <= j < n - 1 implies complete(es.drop_first()[j]) by {
            assert(es.drop_first()[j] == es[j + 1]);
        }
        lemma_lines_count_complete_prefix(es.drop_first(), n - 1);
    } else {
        assert(es.take(0) =~= Seq::<SpecEntry>::empty());
    }
}

/// One job the caller is to perform: print the line, then create the link
/// at `pair.target` pointing to `pair.source` unless the target exists.
pub struct LinkJob {
    pub line: String,
    pub pair: ResolvedPair,
    pub kind: LinkKind,
}

/// One run over a configuration: entries are handed out as jobs strictly in
/// document order, and the first failure — an incomplete entry, an
/// unreadable working directory, or a reported link failure — ends the run.
pub struct Session {
    specs: Vec<LinkSpec>,
    idx: usize,
    failed: bool,
}

impl Session {
    /// The entries this run is over.
    pub closed spec fn entries(&self) -> Seq<SpecEntry> {
        self.specs.deep_view()
    }

    /// How many entries have been handed out as jobs — and so how many
    /// progress lines the caller has been given to print.
    pub closed spec fn handed_out(&self) -> int {
        self.idx as int
    }

    /// Whether the run has failed and hands out nothing further.
    pub closed spec fn has_failed(&self) -> bool {
        self.failed
    }

    /// Every entry handed out so far was complete, and none past the end.
    pub closed spec fn wf(&self) -> bool {
        &&& self.idx <= self.specs@.len()
        &&& forall|j: int| 0 <= j < self.idx ==> complete(#[trigger] self.entries()[j])
    }

    /// Start a run over the given entries.
    pub fn new(specs: Vec<LinkSpec>) -> (r: Session)
        ensures
            r.wf(),
            r.entries() == specs.deep_view(),
            r.handed_out() == 0,
            !r.has_failed(),
    {
        Session { specs, idx: 0, failed: false }
    }

    /// Hand out the next job, in document order.
    ///
    /// `None` means the run is over: every entry was handed out, or an
    /// earlier failure ended it. An incomplete entry fails the run with
    /// `ConfigError` before any later entry is touched; a complete entry
    /// whose locations cannot be resolved fails it with `IOError`. A job is
    /// handed out exactly for the entries before the first incomplete one,
    /// and its line is the progress line for the entry's resolved locations.
    pub fn next_job(&mut self) -> (r: Option<Result<LinkJob, SetupError>>)
        requires
            old(self).wf(),
        ensures
            final(self).wf(),
            final(self).entries() == old(self).entries(),
            final(self).handed_out() >= old(self).handed_out(),
            (old(self).has_failed() || old(self).handed_out() == old(self).entries().len()) ==> (r
                is None && *final(self) == *old(self)),
            r is None ==> (old(self).has_failed() || old(self).handed_out()
                == old(self).entries().len()),
            r matches Some(Ok(job)) ==> {
                &&& !old(self).has_failed() && !final(self).has_failed()
                &&& old(self).handed_out() < old(self).entries().len()
                &&& final(self).handed_out() == old(self).handed_out() + 1
                &&& old(self).handed_out() < first_incomplete(old(self).entries())
                &&& complete(old(self).entries()[old(self).handed_out()])
                &&& job.kind == old(self).entries()[old(self).handed_out()].kind
                &&& is_normal_absolute(job.pair.source@) && is_normal_absolute(job.pair.target@)
                &&& job.line@ == spec_linking_line(job.pair.source@, job.pair.target@)
                &&& {
                    let e = old(self).entries()[old(self).handed_out()];
                    is_normal_absolute(e.source_location->0) && is_normal_absolute(
                        e.target_location->0,
                    ) ==> job.pair.source@ == e.source_location->0 && job.pair.target@
                        == e.target_location->0
                }
            },
            (!old(self).has_failed() && old(self).handed_out() < old(self).entries().len() && {
                let e = old(self).entries()[old(self).handed_out()];
                complete(e) && is_absolute(e.source_location->0) && is_absolute(
                    e.target_location->0,
                )
            }) ==> (r matches Some(inner) && inner is Ok),
            r matches Some(Err(e)) ==> {
                &&& final(self).has_failed()
                &&& final(self).handed_out() == old(self).handed_out()
                &&& old(self).handed_out() < old(self).entries().len()
                &&& (e == SetupError::ConfigError <==> !complete(
                    old(self).entries()[old(self).handed_out()],
                ))
                &&& (e == SetupError::ConfigError || e == SetupError::IOError)
            },
    {
        if self.failed {
            return None;
        }
        if self.idx >= self.specs.len() {
            return None;
        }
        let entry = &self.specs[self.idx];
        proof {
            assert(entry@ == self.entries()[self.idx as int]);
        }
        match resolve_entry(entry) {
            Err(e) => {
                self.failed = true;
                Some(Err(e))
            },
            Ok(pair) => {
                let line = linking_line(&pair);
                let kind = entry.kind;
                self.idx = self.idx + 1;
                proof {
                    lemma_first_incomplete_at_least(self.entries(), self.idx as int);
                }
                Some(Ok(LinkJob { line, pair, kind }))
            },
        }
    }

    /// Take in the outcome of the link attempt the last job asked for:
    /// success (the link was created, or the target already existed and was
    /// skipped) keeps the run alive; anything else is a `LinkError` and
    /// ends it.
    pub fn report_link(&mut self, link_ok: bool) -> (r: Result<(), SetupError>)
        requires
            old(self).wf(),
        ensures
            final(self).wf(),
            final(self).entries() == old(self).entries(),
            final(self).handed_out() == old(self).handed_out(),
            link_ok ==> (r is Ok && *final(self) == *old(self)),
            !link_ok ==> (r == Err::<(), SetupError>(SetupError::LinkError)
                && final(self).has_failed()),
    {
        if link_ok {
            Ok(())
        } else {
            self.failed = true;
            proof {
                assert(self.entries() == old(self).entries());
                assert(self.wf());
            }
            Err(SetupError::LinkError)
        }
    }
}

} // verus!
