use vstd::prelude::*;

verus! {

/// Whether a fetch is in flight.
#[derive(Debug, Clone, Copy, PartialEq, Eq, Structural)]
pub enum PollerState {
    Idle,
    Fetching,
}

/// What the poller is told.
#[derive(Debug, Clone, Copy, PartialEq, Eq, Structural)]
pub enum Trigger {
    /// The poll interval elapsed.
    Tick,
    /// A caller asked for an immediate, out-of-cycle poll.
    ManualRefresh,
    /// The fetch in flight has completed, successfully or not.
    FetchDone,
}

/// What the poller does in response.
#[derive(Debug, Clone, Copy, PartialEq, Eq, Structural)]
pub enum PollAction {
    /// Start one fetch in the background.
    StartFetch,
    Nothing,
}

/// The poller's transition: a tick or a refresh starts a fetch only when none
/// is in flight; a completion returns it to idle.
pub open spec fn poll_step(state: PollerState, trigger: Trigger) -> (PollerState, PollAction) {
    match (state, trigger) {
        (PollerState::Idle, Trigger::FetchDone) => (PollerState::Idle, PollAction::Nothing),
        (PollerState::Idle, _) => (PollerState::Fetching, PollAction::StartFetch),
        (PollerState::Fetching, Trigger::FetchDone) => (PollerState::Idle, PollAction::Nothing),
        (PollerState::Fetching, _) => (PollerState::Fetching, PollAction::Nothing),
    }
}

/// The state after each of `triggers` in turn, from `state`.
pub open spec fn state_after(state: PollerState, triggers: Seq<Trigger>) -> PollerState
    decreases triggers.len(),
{
    if triggers.len() == 0 {
        state
    } else {
        state_after(poll_step(state, triggers[0]).0, triggers.drop_first())
    }
}

/// How many fetches are started while handling `triggers` from `state`.
pub open spec fn fetches_started(state: PollerState, triggers: Seq<Trigger>) -> nat
    decreases triggers.len(),
{
    if triggers.len() == 0 {
        0
    } else {
        let (next, action) = poll_step(state, triggers[0]);
        (if action == PollAction::StartFetch { 1nat } else { 0nat }) + fetches_started(next, triggers.drop_first())
    }
}

/// How many fetches complete while handling `triggers` from `state`: the
/// completions that arrive while one is in flight.
pub open spec fn fetches_completed(state: PollerState, triggers: Seq<Trigger>) -> nat
    decreases triggers.len(),
{
    if triggers.len() == 0 {
        0
    } else {
        let next = poll_step(state, triggers[0]).0;
        (if state == PollerState::Fetching && triggers[0] == Trigger::FetchDone { 1nat } else { 0nat })
            + fetches_completed(next, triggers.drop_first())
    }
}

pub open spec fn in_flight(state: PollerState) -> nat {
    if state == PollerState::Fetching { 1 } else { 0 }
}

/// The in-flight guard of the background poller.
pub struct Poller {
    pub state: PollerState,
}

impl Poller {
    /// An idle poller.
    pub fn new() -> (r: Poller)
        ensures
            r.state == PollerState::Idle,
    {
        Poller { state: PollerState::Idle }
    }

    /// Handles one trigger and says whether to start a fetch.
    pub fn handle(&mut self, trigger: Trigger) -> (r: PollAction)
        ensures
            (final(self).state, r) == poll_step(old(self).state, trigger),
    {
        match (self.state, trigger) {
            (PollerState::Idle, Trigger::FetchDone) => PollAction::Nothing,
            (PollerState::Idle, _) => {
                self.state = PollerState::Fetching;
                PollAction::StartFetch
            },
            (PollerState::Fetching, Trigger::FetchDone) => {
                self.state = PollerState::Idle;
                PollAction::Nothing
            },
            (PollerState::Fetching, _) => PollAction::Nothing,
        }
    }
}

/// At most one fetch is ever in flight: whatever the triggers, every fetch
/// started has completed, but for at most one that is still running.
pub proof fn lemma_at_most_one_in_flight(state: PollerState, triggers: Seq<Trigger>)
    ensures
        in_flight(state) + fetches_started(state, triggers) == fetches_completed(state, triggers)
            + in_flight(state_after(state, triggers)),
    decreases triggers.len(),
{
    if triggers.len() > 0 {
        lemma_at_most_one_in_flight(poll_step(state, triggers[0]).0, triggers.drop_first());
    }
}

/// Refreshes and ticks that arrive while a fetch is in flight start nothing:
/// they are coalesced into that fetch.
pub proof fn lemma_refreshes_coalesce(triggers: Seq<Trigger>)
    requires
        forall|i: int| 0 <= i < triggers.len() ==> #[trigger] triggers[i] != Trigger::FetchDone,
    ensures
        fetches_started(PollerState::Fetching, triggers) == 0,
        state_after(PollerState::Fetching, triggers) == PollerState::Fetching,
    decreases triggers.len(),
{
    if triggers.len() > 0 {
        assert forall|i: int| 0 <= i < triggers.drop_first().len() implies #[trigger] triggers.drop_first()[i]
            != Trigger::FetchDone by {
            assert(triggers.drop_first()[i] == triggers[i + 1]);
        }
        lemma_refreshes_coalesce(triggers.drop_first());
    }
}

/// Any number of refreshes issued while a fetch is in flight, followed by its
/// completion and any triggers at all up to the next completion, lead to at
/// most one more fetch.
pub proof fn lemma_refreshes_cause_at_most_one_fetch(refreshes: nat, later: Seq<Trigger>)
    requires
        forall|i: int| 0 <= i < later.len() ==> #[trigger] later[i] != Trigger::FetchDone,
    ensures
        fetches_started(
            PollerState::Fetching,
            Seq::new(refreshes, |i: int| Trigger::ManualRefresh).push(Trigger::FetchDone) + later,
        ) <= 1,
{
    let rs = Seq::new(refreshes, |i: int| Trigger::ManualRefresh);
    let done = seq![Trigger::FetchDone];
    assert forall|i: int| 0 <= i < rs.len() implies #[trigger] rs[i] != Trigger::FetchDone by {}
    lemma_refreshes_coalesce(rs);
    assert(rs.push(Trigger::FetchDone) =~= rs + done);
    lemma_started_concat(PollerState::Fetching, rs, done);
    lemma_state_after_concat(PollerState::Fetching, rs, done);
    assert(done.drop_first() =~= Seq::<Trigger>::empty());
    assert(done[0] == Trigger::FetchDone);
    assert(fetches_started(PollerState::Idle, done.drop_first()) == 0);
    assert(state_after(PollerState::Idle, done.drop_first()) == PollerState::Idle);
    assert(fetches_started(PollerState::Fetching, done) == 0);
    assert(state_after(PollerState::Fetching, done) == PollerState::Idle);
    lemma_started_concat(PollerState::Fetching, rs + done, later);
    lemma_at_most_one_in_flight(PollerState::Idle, later);
    lemma_no_completion_no_decrease(PollerState::Idle, later);
}

proof fn lemma_no_completion_no_decrease(state: PollerState, triggers: Seq<Trigger>)
    requires
        forall|i: int| 0 <= i < triggers.len() ==> #[trigger] triggers[i] != Trigger::FetchDone,
    ensures
        fetches_completed(state, triggers) == 0,
    decreases triggers.len(),
{
    if triggers.len() > 0 {
        assert forall|i: int| 0 <= i < triggers.drop_first().len() implies #[trigger] triggers.drop_first()[i]
            != Trigger::FetchDone by {
            assert(triggers.drop_first()[i] == triggers[i + 1]);
        }
        lemma_no_completion_no_decrease(poll_step(state, triggers[0]).0, triggers.drop_first());
    }
}

proof fn lemma_started_concat(state: PollerState, a: Seq<Trigger>, b: Seq<Trigger>)
    ensures
        fetches_started(state, a + b) == fetches_started(state, a) + fetches_started(state_after(state, a), b),
    decreases a.len(),
{
    if a.len() == 0 {
        assert(a + b =~= b);
    } else {
        assert((a + b).drop_first() =~= a.drop_first() + b);
        lemma_started_concat(poll_step(state, a[0]).0, a.drop_first(), b);
    }
}

proof fn lemma_state_after_concat(state: PollerState, a: Seq<Trigger>, b: Seq<Trigger>)
    ensures
        state_after(state, a + b) == state_after(state_after(state, a), b),
    decreases a.len(),
{
    if a.len() == 0 {
        assert(a + b =~= b);
    } else {
        assert((a + b).drop_first() =~= a.drop_first() + b);
        lemma_state_after_concat(poll_step(state, a[0]).0, a.drop_first(), b);
    }
}

} // verus!
