//! The remote lookup: a depth-limited search of the device's
//! application root for a directory whose name contains the package
//! identifier.
//!
//! Running a remote command is input/output, so the search is a state
//! machine. Each step hands the caller an action: either a listing
//! command to run, or the finished result. The caller runs the command
//! and hands the outcome back through `on_listing`. The search visits
//! the root's entries in listing order; an entry that contains the
//! package wins at once, and any other entry is probed one level down
//! before the scan moves on. Probe depth is capped at one level below
//! the root.

use vstd::prelude::*;

use crate::bytes::clean_lines;
use crate::bytes::clean_lines_from;
use crate::bytes::contains_bytes;
use crate::bytes::contains_seq;
use crate::bytes::dup;
use crate::bytes::extend_bytes;
use crate::bytes::first_hit;
use crate::bytes::first_hit_from;
use crate::bytes::lemma_first_hit_from_bounds;
use crate::bytes::views_of;
use crate::command::ls_cmd;
use crate::command::ls_cmd_spec;
use crate::error::Error;
use crate::lit;

verus! {

/// A directory path joined with an entry name by a slash.
pub open spec fn joined(dir: Seq<u8>, entry: Seq<u8>) -> Seq<u8> {
    dir + seq![47u8] + entry
}

/// Joins a directory path and an entry name with a slash.
pub fn join(dir: &Vec<u8>, entry: &Vec<u8>) -> (r: Vec<u8>)
    ensures
        r@ == joined(dir@, entry@),
{
    let mut v = dup(dir);
    v.push(47);
    extend_bytes(&mut v, entry);
    proof {
        assert(v@ =~= joined(dir@, entry@));
    }
    v
}

/// What the caller is asked to do next.
pub enum LookupAction {
    /// Run the remote listing command held here and hand the outcome
    /// back through `on_listing`.
    Run(Vec<u8>),
    /// The search is over, with the found path or the failure.
    Done(Result<Vec<u8>, Error>),
}

/// Where the search stands.
pub enum LookupPhase {
    /// Waiting for the listing of the root directory.
    AtRoot,
    /// Waiting for the listing of the subdirectory at entry `idx`.
    Probing,
    /// A `Done` action has been handed out.
    Finished,
}

/// The search's state between two actions.
pub struct Lookup {
    pub pkg: Vec<u8>,
    pub root: Vec<u8>,
    pub entries: Vec<Vec<u8>>,
    pub idx: usize,
    pub phase: LookupPhase,
}

/// What the search decides on arriving at entry `i` of the root
/// listing: give up past the end, succeed on an entry containing the
/// package, and probe one level down otherwise.
pub enum LookupStep {
    Fail,
    Found(Seq<u8>),
    Probe(Seq<u8>),
}

pub open spec fn decide(pkg: Seq<u8>, root: Seq<u8>, es: Seq<Seq<u8>>, i: int) -> LookupStep {
    if i >= es.len() {
        LookupStep::Fail
    } else if contains_seq(es[i], pkg) {
        LookupStep::Found(joined(root, es[i]))
    } else {
        LookupStep::Probe(joined(root, es[i]))
    }
}

/// The action that carries a step out.
pub open spec fn action_for(a: LookupAction, s: LookupStep) -> bool {
    match s {
        LookupStep::Fail => a matches LookupAction::Done(r) && r matches Err(e) && e
            == Error::NotFound,
        LookupStep::Found(p) => a matches LookupAction::Done(r) && r matches Ok(v) && v@ == p,
        LookupStep::Probe(d) => a matches LookupAction::Run(c) && c@ == ls_cmd_spec(d),
    }
}

/// The state and action after the search arrives at entry `i` with the
/// root listing `es`.
pub open spec fn arrived(
    pkg: Seq<u8>,
    root: Seq<u8>,
    es: Seq<Seq<u8>>,
    i: int,
    post: Lookup,
    act: LookupAction,
) -> bool {
    post.pkg@ == pkg && post.root@ == root && views_of(post.entries@) == es && action_for(
        act,
        decide(pkg, root, es, i),
    ) && match decide(pkg, root, es, i) {
        LookupStep::Probe(_) => post.phase is Probing && post.idx == i,
        _ => post.phase is Finished,
    }
}

impl Lookup {
    /// The state is consistent: while probing, `idx` points at a root
    /// entry that did not contain the package.
    pub open spec fn wf(self) -> bool {
        self.phase is Probing ==> self.idx < self.entries@.len() && !contains_seq(
            views_of(self.entries@)[self.idx as int],
            self.pkg@,
        )
    }

    /// Starts a search for `pkg` under `root`. The first action lists
    /// the root.
    pub fn begin(pkg: Vec<u8>, root: Vec<u8>) -> (r: (Lookup, LookupAction))
        ensures
            r.0.wf(),
            r.0.phase is AtRoot,
            r.0.pkg@ == pkg@,
            r.0.root@ == root@,
            r.1 matches LookupAction::Run(c) && c@ == ls_cmd_spec(root@),
    {
        let cmd = ls_cmd(&root);
        let st = Lookup {
            pkg,
            root,
            entries: Vec::new(),
            idx: 0,
            phase: LookupPhase::AtRoot,
        };
        (st, LookupAction::Run(cmd))
    }

    /// Arrives at entry `i`: decides, and moves the state along.
    fn step_at(&mut self, i: usize) -> (act: LookupAction)
        requires
            i <= old(self).entries@.len(),
        ensures
            final(self).wf(),
            arrived(
                old(self).pkg@,
                old(self).root@,
                views_of(old(self).entries@),
                i as int,
                *final(self),
                act,
            ),
    {
        if i >= self.entries.len() {
            self.phase = LookupPhase::Finished;
            LookupAction::Done(Err(Error::NotFound))
        } else if contains_bytes(&self.entries[i], &self.pkg) {
            let p = join(&self.root, &self.entries[i]);
            self.phase = LookupPhase::Finished;
            proof {
                assert(views_of(self.entries@)[i as int] == self.entries@[i as int]@);
            }
            LookupAction::Done(Ok(p))
        } else {
            let d = join(&self.root, &self.entries[i]);
            self.idx = i;
            self.phase = LookupPhase::Probing;
            proof {
                assert(views_of(self.entries@)[i as int] == self.entries@[i as int]@);
            }
            LookupAction::Run(ls_cmd(&d))
        }
    }

    /// Takes the outcome of the listing command last handed out and
    /// returns the next action. Exactly one listing command is issued
    /// per directory the search visits: one for the root, then one per
    /// probed root entry.
    ///
    /// At the root, a failed listing ends the search with that error.
    /// With the root listing in hand, the search arrives at entry 0.
    /// While probing entry `idx`, a listing whose cleaned lines contain
    /// the package ends the search with `<root>/<entry>/<line>`; a
    /// failed listing or one with no match sends the search on to entry
    /// `idx + 1`.
    pub fn on_listing(&mut self, outcome: Result<Vec<u8>, Error>) -> (act: LookupAction)
        requires
            old(self).wf(),
            !(old(self).phase is Finished),
        ensures
            final(self).wf(),
            old(self).phase is AtRoot ==> match outcome {
                Ok(out) => arrived(
                    old(self).pkg@,
                    old(self).root@,
                    clean_lines_from(out@, 0),
                    0,
                    *final(self),
                    act,
                ),
                Err(e) => final(self).phase is Finished && (act matches LookupAction::Done(r) && r
                    matches Err(e2) && e2 == e),
            },
            old(self).phase is Probing ==> {
                let es = views_of(old(self).entries@);
                let i = old(self).idx as int;
                let dir = joined(old(self).root@, es[i]);
                match outcome {
                    Ok(out) => {
                        let subs = clean_lines_from(out@, 0);
                        let h = first_hit_from(old(self).pkg@, subs, 0);
                        if h >= 0 {
                            final(self).phase is Finished && (act matches LookupAction::Done(r)
                                && r matches Ok(v) && v@ == joined(dir, subs[h]))
                        } else {
                            arrived(old(self).pkg@, old(self).root@, es, i + 1, *final(self), act)
                        }
                    },
                    Err(_) => arrived(
                        old(self).pkg@,
                        old(self).root@,
                        es,
                        i + 1,
                        *final(self),
                        act,
                    ),
                }
            },
    {
        match self.phase {
            LookupPhase::AtRoot => {
                match outcome {
                    Ok(out) => {
                        let es = clean_lines(&out);
                        self.entries = es;
                        self.step_at(0)
                    },
                    Err(e) => {
                        self.phase = LookupPhase::Finished;
                        LookupAction::Done(Err(e))
                    },
                }
            },
            LookupPhase::Probing => {
                let i = self.idx;
                let n = self.entries.len();
                proof {
                    assert(i < n);
                }
                match outcome {
                    Ok(out) => {
                        let subs = clean_lines(&out);
                        match first_hit(&self.pkg, &subs) {
                            Some(h) => {
                                proof {
                                    lemma_first_hit_from_bounds(self.pkg@, views_of(subs@), 0);
                                }
                                let dir = join(&self.root, &self.entries[i]);
                                let p = join(&dir, &subs[h]);
                                self.phase = LookupPhase::Finished;
                                proof {
                                    assert(views_of(self.entries@)[i as int]
                                        == self.entries@[i as int]@);
                                    assert(views_of(subs@)[h as int] == subs@[h as int]@);
                                }
                                LookupAction::Done(Ok(p))
                            },
                            None => self.step_at(i + 1),
                        }
                    },
                    Err(_) => self.step_at(i + 1),
                }
            },
            LookupPhase::Finished => {
                proof {
                    assert(false);
                }
                LookupAction::Done(Err(Error::NotFound))
            },
        }
    }
}

/// Starts the search for an installed package's directory under the
/// device's application root. The caller runs each `Run` action's
/// command and feeds the outcome back through `on_listing`.
pub fn app_lib_location(pkg: Vec<u8>) -> (r: (Lookup, LookupAction))
    ensures
        r.0.wf(),
        r.0.phase is AtRoot,
        r.0.pkg@ == pkg@,
        r.0.root@ == lit::app_root(),
        r.1 matches LookupAction::Run(c) && c@ == ls_cmd_spec(lit::app_root()),
{
    let root = lit::make_app_root();
    Lookup::begin(pkg, root)
}

// ----------------------------------------------------------------------
// The search as a mathematical function, and its laws.
//
// `sub` maps each directory path to the raw output its listing command
// would produce, or `None` where the command would fail. One level of
// probing below the root is modelled, as the machine performs it.
// ----------------------------------------------------------------------

/// What probing one root entry's directory yields: the full path of the
/// first cleaned line containing the package, if the listing succeeds
/// and holds one.
pub open spec fn probe_finds(
    pkg: Seq<u8>,
    sub: Map<Seq<u8>, Option<Seq<u8>>>,
    dir: Seq<u8>,
) -> Option<Seq<u8>> {
    if sub.contains_key(dir) {
        match sub[dir] {
            Some(raw) => {
                let es = clean_lines_from(raw, 0);
                let h = first_hit_from(pkg, es, 0);
                if h >= 0 {
                    Some(joined(dir, es[h]))
                } else {
                    None
                }
            },
            None => None,
        }
    } else {
        None
    }
}

/// The search's result, scanning the root listing `es` from entry `i`:
/// the first direct match wins; otherwise the first successful probe
/// wins; otherwise nothing is found.
pub open spec fn scan_from(
    pkg: Seq<u8>,
    root: Seq<u8>,
    es: Seq<Seq<u8>>,
    i: int,
    sub: Map<Seq<u8>, Option<Seq<u8>>>,
) -> Option<Seq<u8>>
    decreases es.len() - i,
{
    if i < 0 || i >= es.len() {
        None
    } else if contains_seq(es[i], pkg) {
        Some(joined(root, es[i]))
    } else {
        match probe_finds(pkg, sub, joined(root, es[i])) {
            Some(p) => Some(p),
            None => scan_from(pkg, root, es, i + 1, sub),
        }
    }
}

/// The whole search over a root listing.
pub open spec fn lookup_model(
    pkg: Seq<u8>,
    root: Seq<u8>,
    root_raw: Seq<u8>,
    sub: Map<Seq<u8>, Option<Seq<u8>>>,
) -> Option<Seq<u8>> {
    scan_from(pkg, root, clean_lines_from(root_raw, 0), 0, sub)
}

/// Entries `k` to `i` neither contain the package nor probe to a match,
/// so the scan's result from `k` is the result from `i`.
pub proof fn lemma_scan_skip_to(
    pkg: Seq<u8>,
    root: Seq<u8>,
    es: Seq<Seq<u8>>,
    k: int,
    i: int,
    sub: Map<Seq<u8>, Option<Seq<u8>>>,
)
    requires
        0 <= k <= i <= es.len(),
        forall|j: int| k <= j < i ==> !contains_seq(#[trigger] es[j], pkg),
        forall|j: int|
            k <= j < i ==> probe_finds(pkg, sub, #[trigger] joined(root, es[j])) is None,
    ensures
        scan_from(pkg, root, es, k, sub) == scan_from(pkg, root, es, i, sub),
    decreases i - k,
{
    if k < i {
        lemma_scan_skip_to(pkg, root, es, k + 1, i, sub);
    }
}

/// A root entry that contains the package wins: when the entries before
/// the first such entry all probe to nothing, the search returns the
/// root joined with that entry — and the step taken at that entry is
/// `Found`, not `Probe`, so no second-level listing is issued for it.
pub proof fn lemma_root_match_wins(
    pkg: Seq<u8>,
    root: Seq<u8>,
    es: Seq<Seq<u8>>,
    i: int,
    sub: Map<Seq<u8>, Option<Seq<u8>>>,
)
    requires
        0 <= i < es.len(),
        contains_seq(es[i], pkg),
        forall|j: int| 0 <= j < i ==> !contains_seq(#[trigger] es[j], pkg),
        forall|j: int|
            0 <= j < i ==> probe_finds(pkg, sub, #[trigger] joined(root, es[j])) is None,
    ensures
        scan_from(pkg, root, es, 0, sub) == Some(joined(root, es[i])),
        decide(pkg, root, es, i) == LookupStep::Found(joined(root, es[i])),
{
    lemma_scan_skip_to(pkg, root, es, 0, i, sub);
}

/// When no root entry up to `i` contains the package, the earlier
/// entries probe to nothing, and entry `i` probes to a match, the
/// search returns that probe's path: the root, the entry and the
/// matching second-level line.
pub proof fn lemma_probe_match_wins(
    pkg: Seq<u8>,
    root: Seq<u8>,
    es: Seq<Seq<u8>>,
    i: int,
    sub: Map<Seq<u8>, Option<Seq<u8>>>,
)
    requires
        0 <= i < es.len(),
        forall|j: int| 0 <= j <= i ==> !contains_seq(#[trigger] es[j], pkg),
        forall|j: int|
            0 <= j < i ==> probe_finds(pkg, sub, #[trigger] joined(root, es[j])) is None,
        probe_finds(pkg, sub, joined(root, es[i])) is Some,
    ensures
        scan_from(pkg, root, es, 0, sub) == probe_finds(pkg, sub, joined(root, es[i])),
        probe_finds(pkg, sub, joined(root, es[i])) matches Some(p) && p == joined(
            joined(root, es[i]),
            clean_lines_from(sub[joined(root, es[i])]->Some_0, 0)[first_hit_from(
                pkg,
                clean_lines_from(sub[joined(root, es[i])]->Some_0, 0),
                0,
            )],
        ),
{
    lemma_scan_skip_to(pkg, root, es, 0, i, sub);
}

/// When no root entry contains the package and no probe finds one, the
/// search fails.
pub proof fn lemma_not_found(
    pkg: Seq<u8>,
    root: Seq<u8>,
    es: Seq<Seq<u8>>,
    sub: Map<Seq<u8>, Option<Seq<u8>>>,
)
    requires
        forall|j: int| 0 <= j < es.len() ==> !contains_seq(#[trigger] es[j], pkg),
        forall|j: int|
            0 <= j < es.len() ==> probe_finds(pkg, sub, #[trigger] joined(root, es[j])) is None,
    ensures
        scan_from(pkg, root, es, 0, sub) is None,
{
    lemma_scan_skip_to(pkg, root, es, 0, es.len() as int, sub);
}

/// The search succeeds whenever a match exists at either level: some
/// root entry contains the package, or some root entry that does not
/// probes to a listing that does. Which path comes back depends on the
/// listing order; the three lemmas above pin it down.
pub proof fn lemma_search_completeness(
    pkg: Seq<u8>,
    root: Seq<u8>,
    es: Seq<Seq<u8>>,
    i: int,
    sub: Map<Seq<u8>, Option<Seq<u8>>>,
)
    requires
        0 <= i < es.len(),
        contains_seq(es[i], pkg) || probe_finds(pkg, sub, joined(root, es[i])) is Some,
    ensures
        scan_from(pkg, root, es, 0, sub) is Some,
{
    lemma_scan_reaches(pkg, root, es, 0, i, sub);
}

proof fn lemma_scan_reaches(
    pkg: Seq<u8>,
    root: Seq<u8>,
    es: Seq<Seq<u8>>,
    k: int,
    i: int,
    sub: Map<Seq<u8>, Option<Seq<u8>>>,
)
    requires
        0 <= k <= i < es.len(),
        contains_seq(es[i], pkg) || probe_finds(pkg, sub, joined(root, es[i])) is Some,
    ensures
        scan_from(pkg, root, es, k, sub) is Some,
    decreases i - k,
{
    if !contains_seq(es[k], pkg) && probe_finds(pkg, sub, joined(root, es[k])) is None {
        lemma_scan_reaches(pkg, root, es, k + 1, i, sub);
    }
}

/// One machine step agrees with the model: when the outcome fed to
/// `on_listing` for the probe of entry `i` is the one `sub` holds for
/// that directory, passing to entry `i + 1` leaves the model's answer
/// unchanged, and a hit ends the search with the model's answer.
pub proof fn lemma_step_agrees_with_model(
    pkg: Seq<u8>,
    root: Seq<u8>,
    es: Seq<Seq<u8>>,
    i: int,
    sub: Map<Seq<u8>, Option<Seq<u8>>>,
)
    requires
        0 <= i < es.len(),
        !contains_seq(es[i], pkg),
    ensures
        probe_finds(pkg, sub, joined(root, es[i])) is None ==> scan_from(pkg, root, es, i, sub)
            == scan_from(pkg, root, es, i + 1, sub),
        probe_finds(pkg, sub, joined(root, es[i])) matches Some(p) ==> scan_from(
            pkg,
            root,
            es,
            i,
            sub,
        ) == Some(p),
{
}

} // verus!
