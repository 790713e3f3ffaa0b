use vstd::prelude::*;
use crate::account::Account;

verus! {

/// Every identifier of the batch lies above the high-water mark (an empty
/// batch included): the batch is genuine new mail.
pub open spec fn is_new_batch(mark: u32, u: Set<u32>) -> bool {
    forall|x: u32| #[trigger] u.contains(x) ==> x > mark
}

/// `m` is the larger of `mark` and the largest identifier of `u`.
pub open spec fn is_raised_mark(mark: u32, u: Set<u32>, m: u32) -> bool {
    &&& m >= mark
    &&& forall|x: u32| #[trigger] u.contains(x) ==> x <= m
    &&& (m == mark || u.contains(m))
}

/// The mark that follows a batch: raised when the batch is new mail, kept
/// otherwise (the batch is discarded, not merged).
pub open spec fn is_next_mark(mark: u32, u: Set<u32>, m: u32) -> bool {
    if is_new_batch(mark, u) {
        is_raised_mark(mark, u, m)
    } else {
        m == mark
    }
}

/// The mark after a detection event is determined: when the batch is new
/// mail it is the maximum of the old mark and the batch, otherwise the old
/// mark.
pub proof fn lemma_next_mark_unique(mark: u32, u: Set<u32>, m1: u32, m2: u32)
    requires
        is_next_mark(mark, u, m1),
        is_next_mark(mark, u, m2),
    ensures
        m1 == m2,
{
    if is_new_batch(mark, u) {
        if m1 != mark {
            assert(u.contains(m1));
        }
        if m2 != mark {
            assert(u.contains(m2));
        }
    }
}

/// Decides on one detection event: whether the notifier fires, and the
/// high-water mark afterwards.
pub fn decide(mark: u32, uids: &Vec<u32>) -> (r: (bool, u32))
    ensures
        r.0 == is_new_batch(mark, uids@.to_set()),
        is_next_mark(mark, uids@.to_set(), r.1),
{
    let mut fresh = true;
    let mut top: u32 = mark;
    let mut i: usize = 0;
    while i < uids.len()
        invariant
            0 <= i <= uids@.len(),
            fresh == forall|j: int| 0 <= j < i ==> #[trigger] uids@[j] > mark,
            top >= mark,
            forall|j: int| 0 <= j < i ==> #[trigger] uids@[j] <= top,
            top == mark || exists|j: int| 0 <= j < i && uids@[j] == top,
        decreases uids@.len() - i,
    {
        let x = uids[i];
        if x <= mark {
            fresh = false;
        }
        if x > top {
            top = x;
        }
        i = i + 1;
    }
    let ghost u = uids@.to_set();
    assert(fresh == is_new_batch(mark, u)) by {
        if fresh {
            assert forall|x: u32| #[trigger] u.contains(x) implies x > mark by {
                let j = choose|j: int| 0 <= j < uids@.len() && uids@[j] == x;
                assert(uids@[j] > mark);
            }
        } else {
            let j = choose|j: int| 0 <= j < uids@.len() && !(uids@[j] > mark);
            assert(u.contains(uids@[j]));
        }
    }
    assert forall|x: u32| #[trigger] u.contains(x) implies x <= top by {
        let j = choose|j: int| 0 <= j < uids@.len() && uids@[j] == x;
        assert(uids@[j] <= top);
    }
    proof {
        if top != mark {
            let j = choose|j: int| 0 <= j < uids@.len() && uids@[j] == top;
            assert(u.contains(uids@[j]));
        }
    }
    if fresh {
        (true, top)
    } else {
        (false, mark)
    }
}


/// Where a detection loop stands, between two requests to the outside.
#[derive(Clone, Copy, Debug, PartialEq, Eq, Structural)]
pub enum DetectPhase {
    /// Waiting for the mailbox at this position to be selected read-only.
    Examining(usize),
    /// Waiting for the search result of the mailbox at this position.
    Searching(usize),
    /// Waiting for the primary command to be launched.
    LaunchingPrimary,
    /// Waiting for the post-command to be launched.
    LaunchingPost,
    /// Waiting for the push-wait to return.
    Idling,
    /// The loop has ended on a failure.
    Stopped,
}

/// What the outside reports after carrying out the last action.
#[derive(Clone, Debug)]
pub enum DetectEvent {
    /// The select or the push-wait completed.
    Done,
    /// The search completed with these identifiers.
    Found(Vec<u32>),
    /// The command was (`true`) or could not be (`false`) launched.
    Launched(bool),
    /// A select, search or push-wait failed.
    Failed,
}

/// What the outside is asked to do next.
#[derive(Clone, Debug)]
pub enum DetectAction {
    /// Select this mailbox read-only.
    Examine(String),
    /// Search the selected mailbox with this query.
    Search(String),
    /// Launch this command, detached.
    Launch(String),
    /// Block on the push-wait with a keepalive timeout.
    Idle,
    /// Give up on the session: the failure goes to the supervisor.
    Stop,
}

/// The detection loop of one connection: the high-water mark, the
/// identifiers collected in the current iteration, and the phase.
pub struct Detector {
    pub account: Account,
    pub mark: u32,
    pub found: Vec<u32>,
    pub phase: DetectPhase,
}

/// The query that finds unseen messages, from the first to the latest.
pub open spec fn search_query() -> Seq<char> {
    seq!['N', 'E', 'W', ' ', '1', ':', '*']
}

/// Whether the event is the one that answers the action of this phase.
pub open spec fn answers(phase: DetectPhase, event: DetectEvent) -> bool {
    match phase {
        DetectPhase::Examining(_) => event is Done,
        DetectPhase::Searching(_) => event is Found,
        DetectPhase::LaunchingPrimary => event is Launched,
        DetectPhase::LaunchingPost => event is Launched,
        DetectPhase::Idling => event is Done,
        DetectPhase::Stopped => false,
    }
}

impl Detector {
    pub open spec fn wf(&self) -> bool {
        &&& self.account.wf()
        &&& match self.phase {
            DetectPhase::Examining(i) => i < self.account.boxes@.len(),
            DetectPhase::Searching(i) => i < self.account.boxes@.len(),
            _ => true,
        }
    }

    /// A detector for a freshly established connection: nothing notified yet
    /// (mark 0), waiting to begin its first iteration.
    pub fn new(account: Account) -> (r: Detector)
        requires
            account.wf(),
        ensures
            r.wf(),
            r.account == account,
            r.mark == 0,
            r.found@.len() == 0,
            r.phase == DetectPhase::Idling,
    {
        Detector { account, mark: 0, found: Vec::new(), phase: DetectPhase::Idling }
    }

    pub fn mark(&self) -> (r: u32)
        ensures
            r == self.mark,
    {
        self.mark
    }

    pub fn phase(&self) -> (r: DetectPhase)
        ensures
            r == self.phase,
    {
        self.phase
    }

    /// Takes the outcome of the last action and returns the next one.
    ///
    /// An iteration selects and searches every watched mailbox in order,
    /// collecting the identifiers into one set. If each of them lies above the
    /// mark, the primary command is launched and the mark raised to their
    /// maximum; the post-command follows only when the primary one launched.
    /// Otherwise the set is discarded. Then the loop blocks on the push-wait.
    /// A failure, or an event that does not answer the last action, stops it.
    pub fn step(&mut self, event: DetectEvent) -> (r: DetectAction)
        requires
            old(self).wf(),
        ensures
            final(self).wf(),
            final(self).account == old(self).account,
            !answers(old(self).phase, event) ==> {
                &&& final(self).phase == DetectPhase::Stopped
                &&& r is Stop
                &&& final(self).mark == old(self).mark
            },
            answers(old(self).phase, event) ==> match old(self).phase {
                DetectPhase::Examining(i) => {
                    &&& final(self).phase == DetectPhase::Searching(i)
                    &&& r is Search && r->Search_0@ == search_query()
                    &&& final(self).mark == old(self).mark
                    &&& final(self).found@ == old(self).found@
                },
                DetectPhase::Searching(i) => {
                    let all = old(self).found@ + event->Found_0@;
                    if i + 1 < old(self).account.boxes@.len() {
                        &&& final(self).phase == DetectPhase::Examining((i + 1) as usize)
                        &&& r is Examine && r->Examine_0 == old(self).account.boxes@[i + 1]
                        &&& final(self).mark == old(self).mark
                        &&& final(self).found@ == all
                    } else {
                        &&& is_next_mark(old(self).mark, all.to_set(), final(self).mark)
                        &&& if is_new_batch(old(self).mark, all.to_set()) {
                            &&& final(self).phase == DetectPhase::LaunchingPrimary
                            &&& r is Launch && r->Launch_0 == old(self).account.on_new_mail
                        } else {
                            &&& final(self).phase == DetectPhase::Idling
                            &&& r is Idle
                        }
                    }
                },
                DetectPhase::LaunchingPrimary => {
                    &&& final(self).mark == old(self).mark
                    &&& if event->Launched_0 && old(self).account.on_new_mail_post is Some {
                        &&& final(self).phase == DetectPhase::LaunchingPost
                        &&& r is Launch && r->Launch_0 == old(self).account.on_new_mail_post->Some_0
                    } else {
                        &&& final(self).phase == DetectPhase::Idling
                        &&& r is Idle
                    }
                },
                DetectPhase::LaunchingPost => {
                    &&& final(self).mark == old(self).mark
                    &&& final(self).phase == DetectPhase::Idling
                    &&& r is Idle
                },
                _ => {
                    &&& final(self).mark == old(self).mark
                    &&& final(self).phase == DetectPhase::Examining(0)
                    &&& final(self).found@.len() == 0
                    &&& r is Examine && r->Examine_0 == old(self).account.boxes@[0]
                },
            },
    {
        match (self.phase, event) {
            (DetectPhase::Examining(i), DetectEvent::Done) => {
                self.phase = DetectPhase::Searching(i);
                proof {
                    reveal_strlit("NEW 1:*");
                }
                DetectAction::Search(String::from_str("NEW 1:*"))
            },
            (DetectPhase::Searching(i), DetectEvent::Found(ids)) => {
                let mut k: usize = 0;
                while k < ids.len()
                    invariant
                        0 <= k <= ids@.len(),
                        self.found@ == old(self).found@ + ids@.subrange(0, k as int),
                        self.account == old(self).account,
                        self.mark == old(self).mark,
                        self.phase == old(self).phase,
                    decreases ids@.len() - k,
                {
                    self.found.push(ids[k]);
                    k = k + 1;
                }
                assert(ids@.subrange(0, ids@.len() as int) == ids@);
                assert(i < self.account.boxes@.len());
                if i < self.account.boxes.len() - 1 {
                    self.phase = DetectPhase::Examining(i + 1);
                    DetectAction::Examine(self.account.boxes[i + 1].clone())
                } else {
                    let (fire, mark) = decide(self.mark, &self.found);
                    self.mark = mark;
                    self.found = Vec::new();
                    if fire {
                        self.phase = DetectPhase::LaunchingPrimary;
                        DetectAction::Launch(self.account.on_new_mail.clone())
                    } else {
                        self.phase = DetectPhase::Idling;
                        DetectAction::Idle
                    }
                }
            },
            (DetectPhase::LaunchingPrimary, DetectEvent::Launched(ok)) => {
                match &self.account.on_new_mail_post {
                    Some(post) if ok => {
                        self.phase = DetectPhase::LaunchingPost;
                        DetectAction::Launch(post.clone())
                    },
                    _ => {
                        self.phase = DetectPhase::Idling;
                        DetectAction::Idle
                    },
                }
            },
            (DetectPhase::LaunchingPost, DetectEvent::Launched(_)) => {
                self.phase = DetectPhase::Idling;
                DetectAction::Idle
            },
            (DetectPhase::Idling, DetectEvent::Done) => {
                self.found = Vec::new();
                self.phase = DetectPhase::Examining(0);
                DetectAction::Examine(self.account.boxes[0].clone())
            },
            _ => {
                self.phase = DetectPhase::Stopped;
                DetectAction::Stop
            },
        }
    }
}

} // verus!
