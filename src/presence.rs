use vstd::prelude::*;

use crate::lease::{FetchError, FetchResult, Lease};

verus! {

/// Who owns which hardware address: a list of (address, identity) pairs.
/// Where an address occurs more than once, its first pair counts.
pub struct DeviceDirectory {
    pub entries: Vec<(String, u64)>,
}

/// The identity that `entries` maps `mac` to, if any: the first match.
pub open spec fn directory_lookup(entries: Seq<(String, u64)>, mac: Seq<char>) -> Option<u64>
    decreases entries.len(),
{
    if entries.len() == 0 {
        None
    } else if entries[0].0@ == mac {
        Some(entries[0].1)
    } else {
        directory_lookup(entries.drop_first(), mac)
    }
}

/// A lease counts as online when it was seen less than `threshold_ms` ago.
pub open spec fn is_online(lease: Lease, threshold_ms: u64) -> bool {
    lease.last_seen_ms < threshold_ms
}

/// The identities present according to `leases`: those that the directory
/// maps some online lease's address to.
pub open spec fn present_set(leases: Seq<Lease>, entries: Seq<(String, u64)>, threshold_ms: u64) -> Set<u64> {
    Set::new(
        |id: u64|
            exists|i: int|
                0 <= i < leases.len() && is_online(leases[i], threshold_ms)
                    && directory_lookup(entries, leases[i].mac_address@) == Some(id),
    )
}

impl DeviceDirectory {
    pub open spec fn lookup_spec(&self, mac: Seq<char>) -> Option<u64> {
        directory_lookup(self.entries@, mac)
    }

    /// The identity that owns `mac`, if any.
    pub fn lookup(&self, mac: &String) -> (r: Option<u64>)
        ensures
            r == self.lookup_spec(mac@),
    {
        let mut i: usize = 0;
        assert(self.entries@.subrange(0, self.entries@.len() as int) =~= self.entries@);
        while i < self.entries.len()
            invariant
                i <= self.entries@.len(),
                directory_lookup(self.entries@, mac@) == directory_lookup(
                    self.entries@.subrange(i as int, self.entries@.len() as int),
                    mac@,
                ),
            decreases self.entries@.len() - i,
        {
            let ghost rest = self.entries@.subrange(i as int, self.entries@.len() as int);
            assert(rest.drop_first() =~= self.entries@.subrange(i + 1, self.entries@.len() as int));
            if self.entries[i].0 == *mac {
                return Some(self.entries[i].1);
            }
            i = i + 1;
        }
        None
    }
}

/// The identities present according to `leases`, each once, in the order of
/// the first lease that shows it.
pub fn present_identities(leases: &Vec<Lease>, directory: &DeviceDirectory, threshold_ms: u64) -> (r: Vec<u64>)
    ensures
        r@.to_set() == present_set(leases@, directory.entries@, threshold_ms),
        r@.no_duplicates(),
{
    let mut ids: Vec<u64> = Vec::new();
    let mut i: usize = 0;
    while i < leases.len()
        invariant
            i <= leases@.len(),
            ids@.no_duplicates(),
            ids@.to_set() == present_set(leases@.subrange(0, i as int), directory.entries@, threshold_ms),
        decreases leases@.len() - i,
    {
        let ghost before = ids@;
        let ghost prefix = leases@.subrange(0, i as int);
        let ghost next = leases@.subrange(0, i + 1);
        let lease = &leases[i];
        if lease.last_seen_ms < threshold_ms {
            match directory.lookup(&lease.mac_address) {
                Some(id) => {
                    let mut found = false;
                    let mut j: usize = 0;
                    while j < ids.len()
                        invariant
                            j <= ids@.len(),
                            found == exists|k: int| 0 <= k < j && ids@[k] == id,
                        decreases ids@.len() - j,
                    {
                        if ids[j] == id {
                            found = true;
                        }
                        j = j + 1;
                    }
                    if !found {
                        ids.push(id);
                        proof {
                            assert forall|k: int, l: int| 0 <= k < l < ids@.len() implies ids@[k] != ids@[l] by {
                                if l == ids@.len() - 1 {
                                    assert(ids@[k] == before[k]);
                                }
                            }
                        }
                    }
                },
                None => {},
            }
        }
        proof {
            assert forall|x: u64| ids@.to_set().contains(x) == present_set(next, directory.entries@, threshold_ms).contains(x) by {
                if present_set(next, directory.entries@, threshold_ms).contains(x) {
                    let w = choose|k: int|
                        0 <= k < next.len() && is_online(next[k], threshold_ms)
                            && directory_lookup(directory.entries@, next[k].mac_address@) == Some(x);
                    if w < i {
                        assert(prefix[w] == next[w]);
                        assert(present_set(prefix, directory.entries@, threshold_ms).contains(x));
                        assert(before.to_set().contains(x));
                        let kk = choose|kk: int| 0 <= kk < before.len() && before[kk] == x;
                        assert(ids@[kk] == x);
                    } else {
                        if !before.to_set().contains(x) {
                            assert(ids@[ids@.len() - 1] == x);
                        } else {
                            let kk = choose|kk: int| 0 <= kk < before.len() && before[kk] == x;
                            assert(ids@[kk] == x);
                        }
                    }
                }
                if ids@.to_set().contains(x) {
                    let kk = choose|kk: int| 0 <= kk < ids@.len() && ids@[kk] == x;
                    if kk < before.len() {
                        assert(before[kk] == x);
                        assert(before.to_set().contains(x));
                        let w = choose|k: int|
                            0 <= k < prefix.len() && is_online(prefix[k], threshold_ms)
                                && directory_lookup(directory.entries@, prefix[k].mac_address@) == Some(x);
                        assert(next[w] == prefix[w]);
                    } else {
                        assert(next[i as int] == leases@[i as int]);
                    }
                }
            }
            assert(ids@.to_set() =~= present_set(next, directory.entries@, threshold_ms));
        }
        i = i + 1;
    }
    assert(leases@.subrange(0, leases@.len() as int) =~= leases@);
    ids
}

/// Who is present, as far as is known: `Unknown` until a fetch has succeeded,
/// then the identities found present by the latest successful fetch.
#[derive(Debug)]
pub enum PresenceSnapshot {
    Unknown,
    Known(Vec<u64>),
}

impl View for PresenceSnapshot {
    type V = Option<Set<u64>>;

    open spec fn view(&self) -> Option<Set<u64>> {
        match self {
            PresenceSnapshot::Unknown => None,
            PresenceSnapshot::Known(ids) => Some(ids@.to_set()),
        }
    }
}

impl PresenceSnapshot {
    /// Each identity of a `Known` snapshot occurs once.
    pub open spec fn wf(&self) -> bool {
        match self {
            PresenceSnapshot::Unknown => true,
            PresenceSnapshot::Known(ids) => ids@.no_duplicates(),
        }
    }

    /// The identities present, or `None` while nothing is known.
    pub fn active_users(&self) -> (r: Option<&Vec<u64>>)
        ensures
            r is None <==> self@ is None,
            r matches Some(ids) ==> Some(ids@.to_set()) == self@,
    {
        match self {
            PresenceSnapshot::Unknown => None,
            PresenceSnapshot::Known(ids) => Some(ids),
        }
    }
}

/// The snapshot after committing `outcome`: a success replaces it with what
/// the leases show, a failure leaves it as it was.
pub open spec fn commit_spec(
    prev: Option<Set<u64>>,
    outcome: FetchResult,
    entries: Seq<(String, u64)>,
    threshold_ms: u64,
) -> Option<Set<u64>> {
    match outcome {
        Ok(leases) => Some(present_set(leases@, entries, threshold_ms)),
        Err(_) => prev,
    }
}

/// The snapshot after committing each of `outcomes` in order, from `prev`.
pub open spec fn commit_all(
    prev: Option<Set<u64>>,
    outcomes: Seq<FetchResult>,
    entries: Seq<(String, u64)>,
    threshold_ms: u64,
) -> Option<Set<u64>>
    decreases outcomes.len(),
{
    if outcomes.len() == 0 {
        prev
    } else {
        commit_all(
            commit_spec(prev, outcomes[0], entries, threshold_ms),
            outcomes.drop_first(),
            entries,
            threshold_ms,
        )
    }
}

/// The latest presence snapshot, written by the poller and read by anyone.
pub struct PresenceState {
    snapshot: PresenceSnapshot,
}

impl View for PresenceState {
    type V = Option<Set<u64>>;

    closed spec fn view(&self) -> Option<Set<u64>> {
        self.snapshot@
    }
}

impl PresenceState {
    pub closed spec fn wf(&self) -> bool {
        self.snapshot.wf()
    }

    /// A state in which nothing is known yet.
    pub fn new() -> (r: PresenceState)
        ensures
            r.wf(),
            r@ is None,
    {
        PresenceState { snapshot: PresenceSnapshot::Unknown }
    }

    /// A copy of the current snapshot.
    pub fn snapshot(&self) -> (r: PresenceSnapshot)
        requires
            self.wf(),
        ensures
            r@ == self@,
            r.wf(),
    {
        match &self.snapshot {
            PresenceSnapshot::Unknown => PresenceSnapshot::Unknown,
            PresenceSnapshot::Known(ids) => {
                let copy = ids.clone();
                assert(copy@ =~= ids@);
                PresenceSnapshot::Known(copy)
            },
        }
    }

    /// Replaces the snapshot with the identities that `leases` show present.
    pub fn apply(&mut self, leases: &Vec<Lease>, directory: &DeviceDirectory, threshold_ms: u64)
        ensures
            final(self).wf(),
            final(self)@ == Some(present_set(leases@, directory.entries@, threshold_ms)),
    {
        let ids = present_identities(leases, directory, threshold_ms);
        self.snapshot = PresenceSnapshot::Known(ids);
    }

    /// Commits the outcome of a fetch: a success is applied, a failure leaves
    /// the snapshot untouched.
    pub fn commit(&mut self, outcome: &FetchResult, directory: &DeviceDirectory, threshold_ms: u64)
        requires
            old(self).wf(),
        ensures
            final(self).wf(),
            final(self)@ == commit_spec(old(self)@, *outcome, directory.entries@, threshold_ms),
    {
        match outcome {
            Ok(leases) => self.apply(leases, directory, threshold_ms),
            Err(_) => {},
        }
    }
}

/// Applying the same lease list twice in a row gives the same set both times.
pub proof fn lemma_apply_idempotent(
    prev: Option<Set<u64>>,
    leases: Vec<Lease>,
    entries: Seq<(String, u64)>,
    threshold_ms: u64,
)
    ensures
        ({
            let once = commit_spec(prev, Ok(leases), entries, threshold_ms);
            let twice = commit_spec(once, Ok(leases), entries, threshold_ms);
            &&& once == Some(present_set(leases@, entries, threshold_ms))
            &&& twice == once
        }),
{
}

/// From the start, the snapshot is unknown exactly as long as no fetch has
/// succeeded; once one has, it stays known whatever fails afterwards.
pub proof fn lemma_unknown_until_first_success(
    outcomes: Seq<FetchResult>,
    entries: Seq<(String, u64)>,
    threshold_ms: u64,
)
    ensures
        commit_all(None, outcomes, entries, threshold_ms) is None <==> forall|i: int|
            0 <= i < outcomes.len() ==> #[trigger] outcomes[i] is Err,
    decreases outcomes.len(),
{
    if outcomes.len() > 0 {
        if outcomes[0] is Ok {
            lemma_known_stays_known(
                commit_spec(None, outcomes[0], entries, threshold_ms),
                outcomes.drop_first(),
                entries,
                threshold_ms,
            );
        }
        lemma_unknown_until_first_success(outcomes.drop_first(), entries, threshold_ms);
        if outcomes[0] is Err {
            assert forall|i: int| 0 <= i < outcomes.len() && (forall|j: int| 0 <= j < outcomes.drop_first().len() ==> #[trigger] outcomes.drop_first()[j] is Err) implies #[trigger] outcomes[i] is Err by {
                if i > 0 {
                    assert(outcomes[i] == outcomes.drop_first()[i - 1]);
                }
            }
            assert forall|j: int| 0 <= j < outcomes.drop_first().len() && (forall|i: int| 0 <= i < outcomes.len() ==> #[trigger] outcomes[i] is Err) implies #[trigger] outcomes.drop_first()[j] is Err by {
                assert(outcomes[j + 1] is Err);
            }
        }
    }
}

/// After a success followed only by failures, the snapshot is what that
/// success showed.
pub proof fn lemma_latest_success_holds(
    prev: Option<Set<u64>>,
    before: Seq<FetchResult>,
    leases: Vec<Lease>,
    failures: Seq<FetchResult>,
    entries: Seq<(String, u64)>,
    threshold_ms: u64,
)
    requires
        forall|i: int| 0 <= i < failures.len() ==> #[trigger] failures[i] is Err,
    ensures
        commit_all(prev, before + seq![Ok(leases)] + failures, entries, threshold_ms)
            == Some(present_set(leases@, entries, threshold_ms)),
    decreases before.len(),
{
    if before.len() == 0 {
        let all = before + seq![Ok::<Vec<Lease>, FetchError>(leases)] + failures;
        assert(all.drop_first() =~= failures);
        lemma_failures_keep(Some(present_set(leases@, entries, threshold_ms)), failures, entries, threshold_ms);
    } else {
        let all = before + seq![Ok::<Vec<Lease>, FetchError>(leases)] + failures;
        assert(all.drop_first() =~= before.drop_first() + seq![Ok::<Vec<Lease>, FetchError>(leases)] + failures);
        lemma_latest_success_holds(
            commit_spec(prev, before[0], entries, threshold_ms),
            before.drop_first(),
            leases,
            failures,
            entries,
            threshold_ms,
        );
    }
}

proof fn lemma_failures_keep(
    prev: Option<Set<u64>>,
    failures: Seq<FetchResult>,
    entries: Seq<(String, u64)>,
    threshold_ms: u64,
)
    requires
        forall|i: int| 0 <= i < failures.len() ==> #[trigger] failures[i] is Err,
    ensures
        commit_all(prev, failures, entries, threshold_ms) == prev,
    decreases failures.len(),
{
    if failures.len() > 0 {
        assert(failures[0] is Err);
        assert forall|i: int| 0 <= i < failures.drop_first().len() implies #[trigger] failures.drop_first()[i] is Err by {
            assert(failures.drop_first()[i] == failures[i + 1]);
        }
        lemma_failures_keep(prev, failures.drop_first(), entries, threshold_ms);
    }
}

/// A known snapshot stays known whatever is committed after it.
pub proof fn lemma_known_stays_known(
    prev: Option<Set<u64>>,
    outcomes: Seq<FetchResult>,
    entries: Seq<(String, u64)>,
    threshold_ms: u64,
)
    requires
        prev is Some,
    ensures
        commit_all(prev, outcomes, entries, threshold_ms) is Some,
    decreases outcomes.len(),
{
    if outcomes.len() > 0 {
        lemma_known_stays_known(
            commit_spec(prev, outcomes[0], entries, threshold_ms),
            outcomes.drop_first(),
            entries,
            threshold_ms,
        );
    }
}

} // verus!
