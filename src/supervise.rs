use vstd::prelude::*;

verus! {

/// Establishment attempts made before an account is given up.
pub const MAX_ATTEMPTS: u32 = 5;

/// Seconds to wait before establishment attempt `k` (from 1): 2^(k-1).
pub open spec fn backoff_secs(k: nat) -> nat
    decreases k,
{
    if k <= 1 {
        1
    } else {
        2 * backoff_secs((k - 1) as nat)
    }
}

/// The wait before establishment attempt `attempt`.
pub fn backoff_delay(attempt: u32) -> (r: u64)
    requires
        1 <= attempt <= MAX_ATTEMPTS,
    ensures
        r == backoff_secs(attempt as nat),
{
    let mut d: u64 = 1;
    let mut k: u32 = 1;
    while k < attempt
        invariant
            1 <= k <= attempt <= MAX_ATTEMPTS,
            d == backoff_secs(k as nat),
            d <= 16,
        decreases attempt - k,
    {
        d = d * 2;
        k = k + 1;
        assert(d <= 16) by {
            reveal_with_fuel(backoff_secs, 5);
        }
    }
    d
}

/// The lifetime of one account's worker.
#[derive(Clone, Copy, Debug, PartialEq, Eq, Structural)]
pub enum SupervisorState {
    /// A connection is installed and its detection loop runs.
    Detecting,
    /// Establishment attempt number `k` (1 to 5) is under way.
    Reconnecting(u32),
    /// Every attempt failed: the account gets no further service.
    Dead,
}

/// The outcome of what the worker was doing.
#[derive(Clone, Copy, Debug, PartialEq, Eq, Structural)]
pub enum SupervisorEvent {
    /// The detection loop or the establishment attempt failed.
    Failed,
    /// The establishment attempt produced a connection.
    Succeeded,
}

/// What the worker does next.
#[derive(Clone, Copy, Debug, PartialEq, Eq, Structural)]
pub enum SupervisorAction {
    /// Keep running the detection loop of the installed connection.
    Detect,
    /// Log out the old connection if `logout` (ignoring its failure), wait
    /// `delay_secs` seconds, then attempt establishment.
    Reconnect { logout: bool, delay_secs: u64 },
    /// Install the new connection with a fresh detector and start detecting.
    Install,
    /// Stop the worker for good.
    Stop,
}

/// One transition of the supervisor: failures of every kind are retried alike.
pub open spec fn transition(s: SupervisorState, e: SupervisorEvent) -> (SupervisorState, SupervisorAction) {
    match s {
        SupervisorState::Detecting => match e {
            SupervisorEvent::Failed => (
                SupervisorState::Reconnecting(1),
                SupervisorAction::Reconnect { logout: true, delay_secs: backoff_secs(1) as u64 },
            ),
            SupervisorEvent::Succeeded => (SupervisorState::Detecting, SupervisorAction::Detect),
        },
        SupervisorState::Reconnecting(k) => match e {
            SupervisorEvent::Failed => if k < MAX_ATTEMPTS {
                (
                    SupervisorState::Reconnecting((k + 1) as u32),
                    SupervisorAction::Reconnect {
                        logout: false,
                        delay_secs: backoff_secs((k + 1) as nat) as u64,
                    },
                )
            } else {
                (SupervisorState::Dead, SupervisorAction::Stop)
            },
            SupervisorEvent::Succeeded => (SupervisorState::Detecting, SupervisorAction::Install),
        },
        SupervisorState::Dead => (SupervisorState::Dead, SupervisorAction::Stop),
    }
}

/// The state reached and the actions taken over a run of events.
pub open spec fn run(s: SupervisorState, es: Seq<SupervisorEvent>) -> (SupervisorState, Seq<SupervisorAction>)
    decreases es.len(),
{
    if es.len() == 0 {
        (s, Seq::empty())
    } else {
        let (s1, a) = transition(s, es[0]);
        let (s2, acts) = run(s1, es.drop_first());
        (s2, seq![a] + acts)
    }
}

/// The worker of one account.
pub struct Supervisor {
    pub state: SupervisorState,
}

impl Supervisor {
    pub open spec fn wf(&self) -> bool {
        match self.state {
            SupervisorState::Reconnecting(k) => 1 <= k <= MAX_ATTEMPTS,
            _ => true,
        }
    }

    /// The worker of an account whose connection is already established.
    pub fn new() -> (r: Supervisor)
        ensures
            r.wf(),
            r.state == SupervisorState::Detecting,
    {
        Supervisor { state: SupervisorState::Detecting }
    }

    /// Initial establishment, under the same schedule as reconnection: the
    /// first attempt comes after the first delay.
    pub fn connecting() -> (r: (Supervisor, SupervisorAction))
        ensures
            r.0.wf(),
            r.0.state == SupervisorState::Reconnecting(1),
            r.1 == (SupervisorAction::Reconnect { logout: false, delay_secs: backoff_secs(1) as u64 }),
    {
        let d = backoff_delay(1);
        (Supervisor { state: SupervisorState::Reconnecting(1) }, SupervisorAction::Reconnect { logout: false, delay_secs: d })
    }

    pub fn state(&self) -> (r: SupervisorState)
        ensures
            r == self.state,
    {
        self.state
    }

    pub fn step(&mut self, e: SupervisorEvent) -> (r: SupervisorAction)
        requires
            old(self).wf(),
        ensures
            final(self).wf(),
            (final(self).state, r) == transition(old(self).state, e),
    {
        match (self.state, e) {
            (SupervisorState::Detecting, SupervisorEvent::Failed) => {
                self.state = SupervisorState::Reconnecting(1);
                SupervisorAction::Reconnect { logout: true, delay_secs: backoff_delay(1) }
            },
            (SupervisorState::Detecting, SupervisorEvent::Succeeded) => SupervisorAction::Detect,
            (SupervisorState::Reconnecting(k), SupervisorEvent::Failed) => {
                if k < MAX_ATTEMPTS {
                    self.state = SupervisorState::Reconnecting(k + 1);
                    SupervisorAction::Reconnect { logout: false, delay_secs: backoff_delay(k + 1) }
                } else {
                    self.state = SupervisorState::Dead;
                    SupervisorAction::Stop
                }
            },
            (SupervisorState::Reconnecting(_), SupervisorEvent::Succeeded) => {
                self.state = SupervisorState::Detecting;
                SupervisorAction::Install
            },
            (SupervisorState::Dead, _) => SupervisorAction::Stop,
        }
    }
}

/// After a detection failure, reconnection waits 1, 2, 4, 8 and 16 seconds
/// before its five attempts; when all five fail the worker is dead, and a
/// dead worker only ever stops.
pub proof fn lemma_reconnect_schedule()
    ensures
        run(SupervisorState::Detecting, seq![SupervisorEvent::Failed; 6]) == (
            SupervisorState::Dead,
            seq![
                SupervisorAction::Reconnect { logout: true, delay_secs: 1 },
                SupervisorAction::Reconnect { logout: false, delay_secs: 2 },
                SupervisorAction::Reconnect { logout: false, delay_secs: 4 },
                SupervisorAction::Reconnect { logout: false, delay_secs: 8 },
                SupervisorAction::Reconnect { logout: false, delay_secs: 16 },
                SupervisorAction::Stop,
            ],
        ),
{
    reveal_with_fuel(backoff_secs, 5);
    reveal_with_fuel(run, 7);
    let es = seq![SupervisorEvent::Failed; 6];
    assert(es.drop_first() =~= seq![SupervisorEvent::Failed; 5]);
    assert(es.drop_first().drop_first() =~= seq![SupervisorEvent::Failed; 4]);
    assert(es.drop_first().drop_first().drop_first() =~= seq![SupervisorEvent::Failed; 3]);
    assert(es.drop_first().drop_first().drop_first().drop_first() =~= seq![SupervisorEvent::Failed; 2]);
    assert(es.drop_first().drop_first().drop_first().drop_first().drop_first() =~= seq![SupervisorEvent::Failed; 1]);
    assert(seq![SupervisorEvent::Failed; 1].drop_first() =~= Seq::<SupervisorEvent>::empty());
    assert(run(SupervisorState::Detecting, es).1 =~= seq![
        SupervisorAction::Reconnect { logout: true, delay_secs: 1 },
        SupervisorAction::Reconnect { logout: false, delay_secs: 2 },
        SupervisorAction::Reconnect { logout: false, delay_secs: 4 },
        SupervisorAction::Reconnect { logout: false, delay_secs: 8 },
        SupervisorAction::Reconnect { logout: false, delay_secs: 16 },
        SupervisorAction::Stop,
    ]);
}

/// A dead worker stays dead and does nothing but stop, whatever follows.
pub proof fn lemma_dead_is_final(es: Seq<SupervisorEvent>)
    ensures
        run(SupervisorState::Dead, es).0 == SupervisorState::Dead,
        forall|i: int| 0 <= i < es.len() ==> #[trigger] run(SupervisorState::Dead, es).1[i] == SupervisorAction::Stop,
        run(SupervisorState::Dead, es).1.len() == es.len(),
    decreases es.len(),
{
    if es.len() > 0 {
        lemma_dead_is_final(es.drop_first());
        let acts = run(SupervisorState::Dead, es).1;
        assert forall|i: int| 0 <= i < es.len() implies #[trigger] acts[i] == SupervisorAction::Stop by {
            if i > 0 {
                assert(acts[i] == run(SupervisorState::Dead, es.drop_first()).1[i - 1]);
            }
        }
    }
}

} // verus!
