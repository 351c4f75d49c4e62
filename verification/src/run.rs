//! The archive orchestrator: the state machine driving one run.
//!
//! A run moves `Idle -> Resolving -> Listing -> Downloading ->
//! Completing -> Idle`. The orchestrator makes every decision of the
//! pipeline; the surrounding program performs the network and
//! filesystem work and reports each result back as a plain value.
//! Per-asset failures are recorded, never propagated: a run reaches
//! `Completing` exactly when every listed asset has one recorded
//! outcome.

use vstd::prelude::*;
use vstd::pervasive::VecAdditionalExecFns;
use crate::errors::{FetchOutcome, RunAbortedError};
use crate::model::{AssetDescriptor, ServerContext, Timestamp};
use crate::plan::run_directory_name;
use crate::text::dec_digits;

verus! {

/// Where one run stands.
#[derive(Clone, Copy, PartialEq, Eq, Structural, Debug)]
pub enum RunState {
    /// No run in progress.
    Idle,
    /// A trigger was accepted; the server context is being resolved.
    Resolving,
    /// The asset list is being retrieved.
    Listing,
    /// Per-asset fetch-and-write tasks are in flight.
    Downloading,
    /// Every outcome is recorded; the summary is being delivered.
    Completing,
}

/// The trigger command a message must equal, letter for letter, to
/// start a run.
pub open spec fn archive_command() -> Seq<char> {
    "!archive"@
}

/// Whether every listed asset has a recorded outcome.
pub open spec fn all_recorded(outcomes: Seq<Option<FetchOutcome>>) -> bool {
    forall|i: int| 0 <= i < outcomes.len() ==> outcomes[i] is Some
}

/// How many recorded outcomes are successes.
pub open spec fn count_succeeded(outcomes: Seq<Option<FetchOutcome>>) -> int
    decreases outcomes.len(),
{
    if outcomes.len() == 0 {
        0
    } else {
        count_succeeded(outcomes.drop_last()) + match outcomes.last() {
            Option::Some(o) => if o.is_success() {
                1int
            } else {
                0int
            },
            Option::None => 0int,
        }
    }
}

/// How many recorded outcomes are failures.
pub open spec fn count_failed(outcomes: Seq<Option<FetchOutcome>>) -> int
    decreases outcomes.len(),
{
    if outcomes.len() == 0 {
        0
    } else {
        count_failed(outcomes.drop_last()) + match outcomes.last() {
            Option::Some(o) => if o.is_success() {
                0int
            } else {
                1int
            },
            Option::None => 0int,
        }
    }
}

/// The completion notice for a run: its success and failure counts.
pub open spec fn summary_text(succeeded: int, failed: int) -> Seq<char> {
    "Archive complete. "@ + dec_digits(succeeded) + " succeeded, "@ + dec_digits(failed)
        + " failed."@
}

/// Composes the completion notice from the two counts.
pub fn compose_summary(succeeded: u64, failed: u64) -> (r: String)
    ensures
        r@ == summary_text(succeeded as int, failed as int),
{
    let mut s = String::from_str("Archive complete. ");
    let sd = crate::text::format_u64(succeeded);
    s.append(sd.as_str());
    s.append(" succeeded, ");
    let fd = crate::text::format_u64(failed);
    s.append(fd.as_str());
    s.append(" failed.");
    proof {
        assert(s@ =~= summary_text(succeeded as int, failed as int));
    }
    s
}

/// The in-memory record of one run: its target directory, the listed
/// assets, and one outcome slot per asset.
pub struct RunManifest {
    pub directory: String,
    pub assets: Vec<AssetDescriptor>,
    pub outcomes: Vec<Option<FetchOutcome>>,
}

impl RunManifest {
    /// One outcome slot per listed asset.
    pub open spec fn wf(self) -> bool {
        self.outcomes@.len() == self.assets@.len()
    }

    /// Every listed asset has a recorded outcome.
    pub open spec fn complete(self) -> bool {
        all_recorded(self.outcomes@)
    }
}

/// One run of the archive pipeline.
pub struct ArchiveRun {
    /// The fixed root every run directory is created beneath.
    pub root: String,
    pub state: RunState,
    /// The server context, resolved once per run.
    pub server: Option<ServerContext>,
    /// The run's target directory, derived at resolution.
    pub directory: Option<String>,
    /// The run's record; present from the moment a listing arrives.
    pub manifest: Option<RunManifest>,
}

impl ArchiveRun {
    /// What each state guarantees about the run's data.
    pub open spec fn wf(self) -> bool {
        &&& (self.state is Idle ==> self.manifest is None)
        &&& (self.state is Resolving ==> self.manifest is None)
        &&& (self.state is Listing ==> self.server is Some && self.directory is Some
            && self.manifest is None)
        &&& (self.state is Downloading ==> self.manifest is Some && self.manifest->0.wf())
        &&& (self.state is Completing ==> self.manifest is Some && self.manifest->0.wf()
            && self.manifest->0.complete())
    }

    /// A fresh, idle run rooted at `root`.
    pub fn new(root: String) -> (r: ArchiveRun)
        ensures
            r.wf(),
            r.state is Idle,
            r.root@ == root@,
    {
        ArchiveRun { root, state: RunState::Idle, server: None, directory: None, manifest: None }
    }

    /// Trigger detection: an idle run accepts a message exactly when it
    /// equals the archive command; any other message is a no-op.
    pub fn on_message(&mut self, content: &str) -> (triggered: bool)
        requires
            old(self).wf(),
        ensures
            final(self).wf(),
            triggered <==> (old(self).state is Idle && content@ == archive_command()),
            triggered ==> final(self).state is Resolving,
            !triggered ==> *final(self) == *old(self),
            final(self).root == old(self).root,
            final(self).manifest == old(self).manifest,
    {
        let is_command = crate::text::str_eq(content, "!archive");
        match self.state {
            RunState::Idle => {
                if is_command {
                    self.state = RunState::Resolving;
                    true
                } else {
                    false
                }
            },
            _ => false,
        }
    }

    /// The server context could not be resolved: the run is abandoned
    /// before any listing or download.
    pub fn on_resolve_failed(&mut self) -> (e: RunAbortedError)
        requires
            old(self).wf(),
            old(self).state is Resolving,
        ensures
            final(self).wf(),
            final(self).state is Idle,
            final(self).manifest is None,
            final(self).root == old(self).root,
            e == RunAbortedError::ServerUnresolved,
    {
        self.state = RunState::Idle;
        RunAbortedError::ServerUnresolved
    }

    /// The server context arrived: the run derives its target directory
    /// from the server's name and the trigger timestamp, and moves on
    /// to listing.
    pub fn on_server_resolved(&mut self, server: ServerContext, ts: Timestamp)
        requires
            old(self).wf(),
            old(self).state is Resolving,
            ts.valid(),
        ensures
            final(self).wf(),
            final(self).state is Listing,
            final(self).server is Some,
            final(self).server->0.server_id == server.server_id,
            final(self).server->0.server_name@ == server.server_name@,
            final(self).directory is Some,
            final(self).directory->0@ == old(self).root@ + seq!['/'] + run_directory_name(
                server.server_name@,
                ts,
            ),
            final(self).root == old(self).root,
            final(self).manifest is None,
    {
        let name = crate::plan::derive_run_directory(server.server_name.as_str(), &ts);
        let mut dir = self.root.clone();
        dir.append("/");
        dir.append(name.as_str());
        proof {
            reveal_strlit("/");
            assert(dir@ =~= self.root@ + seq!['/'] + run_directory_name(server.server_name@, ts));
        }
        self.server = Some(server);
        self.directory = Some(dir);
        self.state = RunState::Listing;
    }

    /// The asset-listing call failed: the run is abandoned with no
    /// manifest, so no path is planned and nothing is written.
    pub fn on_listing_failed(&mut self) -> (e: RunAbortedError)
        requires
            old(self).wf(),
            old(self).state is Listing,
        ensures
            final(self).wf(),
            final(self).state is Idle,
            final(self).manifest is None,
            final(self).root == old(self).root,
            e == RunAbortedError::ListingFailed,
    {
        self.state = RunState::Idle;
        RunAbortedError::ListingFailed
    }

    /// The asset list arrived (possibly empty): the run records it in a
    /// fresh manifest, one empty outcome slot per asset, and starts
    /// downloading.
    pub fn on_listing(&mut self, assets: Vec<AssetDescriptor>)
        requires
            old(self).wf(),
            old(self).state is Listing,
        ensures
            final(self).wf(),
            final(self).state is Downloading,
            final(self).manifest is Some,
            final(self).manifest->0.directory@ == old(self).directory->0@,
            final(self).manifest->0.assets@ == assets@,
            final(self).manifest->0.outcomes@.len() == assets@.len(),
            forall|i: int|
                0 <= i < assets@.len() ==> final(self).manifest->0.outcomes@[i] is None,
            final(self).root == old(self).root,
    {
        let n = assets.len();
        let mut outcomes: Vec<Option<FetchOutcome>> = Vec::new();
        let mut i: usize = 0;
        while i < n
            invariant
                0 <= i <= n,
                outcomes@.len() == i,
                forall|j: int| 0 <= j < i ==> outcomes@[j] is None,
            decreases n - i,
        {
            outcomes.push(None);
            i += 1;
        }
        let directory = match &self.directory {
            Some(d) => d.clone(),
            None => String::new(),
        };
        self.manifest = Some(RunManifest { directory, assets, outcomes });
        self.state = RunState::Downloading;
    }

    /// Records the outcome of one asset's fetch-and-write task. Each
    /// slot is written exactly once; sibling slots are untouched, so a
    /// failure never disturbs other assets.
    pub fn record_outcome(&mut self, index: usize, outcome: FetchOutcome)
        requires
            old(self).wf(),
            old(self).state is Downloading,
            index < old(self).manifest->0.outcomes@.len(),
            old(self).manifest->0.outcomes@[index as int] is None,
        ensures
            final(self).wf(),
            final(self).state is Downloading,
            final(self).manifest is Some,
            final(self).manifest->0.outcomes@ == old(self).manifest->0.outcomes@.update(
                index as int,
                Some(outcome),
            ),
            final(self).manifest->0.assets@ == old(self).manifest->0.assets@,
            final(self).manifest->0.directory@ == old(self).manifest->0.directory@,
            final(self).root == old(self).root,
    {
        match &mut self.manifest {
            Some(m) => {
                m.outcomes.set(index, Some(outcome));
            },
            None => {},
        }
    }

    /// Returns whether every listed asset has a recorded outcome: the
    /// run barrier before `Completing`.
    pub fn all_outcomes_recorded(&self) -> (r: bool)
        requires
            self.wf(),
            self.state is Downloading,
        ensures
            r == self.manifest->0.complete(),
    {
        match &self.manifest {
            Some(m) => {
                let n = m.outcomes.len();
                let mut i: usize = 0;
                while i < n
                    invariant
                        0 <= i <= n,
                        n == m.outcomes@.len(),
                        self.manifest == Some(*m),
                        forall|j: int| 0 <= j < i ==> m.outcomes@[j] is Some,
                    decreases n - i,
                {
                    if m.outcomes[i].is_none() {
                        proof {
                            assert(!(m.outcomes@[i as int] is Some));
                        }
                        return false;
                    }
                    i += 1;
                }
                true
            },
            None => false,
        }
    }

    /// Every outcome is in: the run crosses the barrier to
    /// `Completing` and composes the completion notice from its
    /// success and failure counts.
    pub fn finish_downloads(&mut self) -> (summary: String)
        requires
            old(self).wf(),
            old(self).state is Downloading,
            old(self).manifest->0.complete(),
        ensures
            final(self).wf(),
            final(self).state is Completing,
            final(self).manifest == old(self).manifest,
            final(self).root == old(self).root,
            summary@ == summary_text(
                count_succeeded(old(self).manifest->0.outcomes@),
                count_failed(old(self).manifest->0.outcomes@),
            ),
    {
        let (s, f) = match &self.manifest {
            Some(m) => {
                let n = m.outcomes.len();
                let mut s: u64 = 0;
                let mut f: u64 = 0;
                let mut i: usize = 0;
                while i < n
                    invariant
                        0 <= i <= n,
                        n == m.outcomes@.len(),
                        s <= i,
                        f <= i,
                        n <= u64::MAX,
                        s == count_succeeded(m.outcomes@.take(i as int)),
                        f == count_failed(m.outcomes@.take(i as int)),
                    decreases n - i,
                {
                    proof {
                        assert(m.outcomes@.take(i + 1 as int).drop_last() =~= m.outcomes@.take(
                            i as int,
                        ));
                        assert(m.outcomes@.take(i + 1 as int).last() == m.outcomes@[i as int]);
                    }
                    match &m.outcomes[i] {
                        Some(o) => {
                            if o.succeeded() {
                                s += 1;
                            } else {
                                f += 1;
                            }
                        },
                        None => {},
                    }
                    i += 1;
                }
                proof {
                    assert(m.outcomes@.take(n as int) =~= m.outcomes@);
                }
                (s, f)
            },
            None => (0, 0),
        };
        self.state = RunState::Completing;
        compose_summary(s, f)
    }

    /// The completion notice was delivered: the run is over.
    pub fn on_reply_sent(&mut self)
        requires
            old(self).wf(),
            old(self).state is Completing,
        ensures
            final(self).wf(),
            final(self).state is Idle,
            final(self).root == old(self).root,
    {
        self.manifest = None;
        self.state = RunState::Idle;
    }

    /// Delivery of the completion notice failed: this is logged by the
    /// caller, never retried, and the run is over all the same.
    pub fn on_reply_failed(&mut self)
        requires
            old(self).wf(),
            old(self).state is Completing,
        ensures
            final(self).wf(),
            final(self).state is Idle,
            final(self).root == old(self).root,
    {
        self.manifest = None;
        self.state = RunState::Idle;
    }
}

/// Join completeness: once a run stands in `Completing`, every asset
/// listed in its manifest has exactly one recorded outcome.
pub proof fn lemma_join_completeness(r: ArchiveRun)
    requires
        r.wf(),
        r.state is Completing,
    ensures
        forall|i: int|
            0 <= i < r.manifest->0.assets@.len() ==> r.manifest->0.outcomes@[i] is Some,
{
}

/// Per-asset failures are contained: whether the run barrier is
/// crossed depends only on every slot being recorded, never on which
/// variant any recorded outcome holds.
pub proof fn lemma_failure_does_not_block_completion(
    outcomes: Seq<Option<FetchOutcome>>,
    i: int,
    o1: FetchOutcome,
    o2: FetchOutcome,
)
    requires
        0 <= i < outcomes.len(),
    ensures
        all_recorded(outcomes.update(i, Some(o1))) <==> all_recorded(outcomes.update(i, Some(o2))),
{
    let u1 = outcomes.update(i, Some(o1));
    let u2 = outcomes.update(i, Some(o2));
    assert forall|j: int| 0 <= j < u1.len() && all_recorded(u1) implies u2[j] is Some by {
        assert(u1[j] is Some);
    }
    assert forall|j: int| 0 <= j < u2.len() && all_recorded(u2) implies u1[j] is Some by {
        assert(u2[j] is Some);
    }
}

} // verus!
