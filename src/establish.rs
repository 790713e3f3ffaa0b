use vstd::prelude::*;
use crate::account::{Account, trimmed};

verus! {

/// The capability that announces the push-wait command.
pub open spec fn idle_capability() -> Seq<char> {
    seq!['I', 'D', 'L', 'E']
}

pub open spec fn lists_idle(caps: Seq<String>) -> bool {
    exists|i: int| 0 <= i < caps.len() && #[trigger] caps[i]@ == idle_capability()
}

/// Whether the server's capability list announces the push-wait command.
pub fn has_idle(caps: &Vec<String>) -> (r: bool)
    ensures
        r == lists_idle(caps@),
{
    proof {
        reveal_strlit("IDLE");
    }
    let idle = String::from_str("IDLE");
    let mut i: usize = 0;
    while i < caps.len()
        invariant
            0 <= i <= caps@.len(),
            idle@ == idle_capability(),
            forall|j: int| 0 <= j < i ==> #[trigger] caps@[j]@ != idle_capability(),
        decreases caps@.len() - i,
    {
        if caps[i] == idle {
            return true;
        }
        i = i + 1;
    }
    false
}

/// Why establishment failed.
#[derive(Clone, Copy, Debug, PartialEq, Eq, Structural)]
pub enum EstablishError {
    /// Transport, upgrade, authentication or select failure.
    Connectivity,
    /// The server does not announce the push-wait command.
    MissingIdle,
}

/// Where an establishment stands.
#[derive(Clone, Copy, Debug, PartialEq, Eq, Structural)]
pub enum EstablishPhase {
    /// Waiting for the TCP (and, for implicit TLS, the TLS) connection.
    Connecting,
    /// Waiting for the in-place TLS upgrade.
    Upgrading,
    /// Waiting for authentication.
    LoggingIn,
    /// Waiting for the capability list.
    Querying,
    /// Waiting for the first watched mailbox to be selected read-only.
    Selecting,
    /// The connection is ready.
    Ready,
    /// The establishment failed; nothing of it is kept.
    Failed(EstablishError),
}

/// What the outside reports after carrying out the last action.
#[derive(Clone, Debug)]
pub enum EstablishEvent {
    /// The connect, upgrade, login or select completed.
    Done,
    /// The server listed these capabilities.
    Capabilities(Vec<String>),
    /// The last action failed.
    Failed,
}

/// What the outside is asked to do next.
#[derive(Clone, Debug)]
pub enum EstablishAction {
    /// Connect to the account's host and port, encrypted from the start.
    ConnectTls,
    /// Connect to the account's host and port in plaintext.
    ConnectPlain,
    /// Upgrade the plaintext connection to TLS in place.
    UpgradeTls,
    /// Authenticate with these credentials.
    Login { username: String, password: String },
    /// Ask for the server's capabilities.
    QueryCapabilities,
    /// Select this mailbox read-only.
    Examine(String),
    /// Hand the session over: it is established.
    Finish,
    /// Drop the session: the establishment failed.
    Abort(EstablishError),
}

/// The establishment of one connection: transport, authentication,
/// capability check and a first read-only select, as one operation.
pub struct Establisher {
    pub phase: EstablishPhase,
}

/// Whether the event answers the action asked for in this phase.
pub open spec fn answers_establish(phase: EstablishPhase, event: EstablishEvent) -> bool {
    match phase {
        EstablishPhase::Querying => event is Capabilities,
        EstablishPhase::Ready => false,
        EstablishPhase::Failed(_) => false,
        _ => event is Done,
    }
}

impl Establisher {
    /// Begins establishment with the transport the account asks for.
    pub fn start(account: &Account) -> (r: (Establisher, EstablishAction))
        ensures
            r.0.phase == EstablishPhase::Connecting,
            account.starttls ==> r.1 is ConnectPlain,
            !account.starttls ==> r.1 is ConnectTls,
    {
        let action = if account.starttls {
            EstablishAction::ConnectPlain
        } else {
            EstablishAction::ConnectTls
        };
        (Establisher { phase: EstablishPhase::Connecting }, action)
    }

    pub fn phase(&self) -> (r: EstablishPhase)
        ensures
            r == self.phase,
    {
        self.phase
    }

    /// Takes the outcome of the last action and returns the next one. Any
    /// failure, or an event that does not answer the last action, aborts
    /// the whole establishment; a capability list without the push-wait
    /// command aborts it with its own error. Once finished or aborted, the
    /// outcome stays.
    pub fn step(&mut self, account: &Account, event: EstablishEvent) -> (r: EstablishAction)
        requires
            account.wf(),
        ensures
            match old(self).phase {
                EstablishPhase::Ready => final(self).phase == old(self).phase && r is Finish,
                EstablishPhase::Failed(e) => final(self).phase == old(self).phase && r == EstablishAction::Abort(e),
                _ => if !answers_establish(old(self).phase, event) {
                    &&& final(self).phase == EstablishPhase::Failed(EstablishError::Connectivity)
                    &&& r == EstablishAction::Abort(EstablishError::Connectivity)
                } else {
                    match old(self).phase {
                        EstablishPhase::Connecting => if account.starttls {
                            final(self).phase == EstablishPhase::Upgrading && r is UpgradeTls
                        } else {
                            &&& final(self).phase == EstablishPhase::LoggingIn
                            &&& r is Login
                            &&& r->username@ == trimmed(account.username@)
                            &&& r->password@ == trimmed(account.password@)
                        },
                        EstablishPhase::Upgrading => {
                            &&& final(self).phase == EstablishPhase::LoggingIn
                            &&& r is Login
                            &&& r->username@ == trimmed(account.username@)
                            &&& r->password@ == trimmed(account.password@)
                        },
                        EstablishPhase::LoggingIn => {
                            final(self).phase == EstablishPhase::Querying && r is QueryCapabilities
                        },
                        EstablishPhase::Querying => if lists_idle(event->Capabilities_0@) {
                            &&& final(self).phase == EstablishPhase::Selecting
                            &&& r is Examine && r->Examine_0 == account.boxes@[0]
                        } else {
                            &&& final(self).phase == EstablishPhase::Failed(EstablishError::MissingIdle)
                            &&& r == EstablishAction::Abort(EstablishError::MissingIdle)
                        },
                        _ => final(self).phase == EstablishPhase::Ready && r is Finish,
                    }
                },
            },
    {
        match (self.phase, event) {
            (EstablishPhase::Ready, _) => EstablishAction::Finish,
            (EstablishPhase::Failed(e), _) => EstablishAction::Abort(e),
            (EstablishPhase::Connecting, EstablishEvent::Done) => {
                if account.starttls {
                    self.phase = EstablishPhase::Upgrading;
                    EstablishAction::UpgradeTls
                } else {
                    self.phase = EstablishPhase::LoggingIn;
                    EstablishAction::Login {
                        username: account.login_username(),
                        password: account.login_password(),
                    }
                }
            },
            (EstablishPhase::Upgrading, EstablishEvent::Done) => {
                self.phase = EstablishPhase::LoggingIn;
                EstablishAction::Login {
                    username: account.login_username(),
                    password: account.login_password(),
                }
            },
            (EstablishPhase::LoggingIn, EstablishEvent::Done) => {
                self.phase = EstablishPhase::Querying;
                EstablishAction::QueryCapabilities
            },
            (EstablishPhase::Querying, EstablishEvent::Capabilities(caps)) => {
                if has_idle(&caps) {
                    self.phase = EstablishPhase::Selecting;
                    EstablishAction::Examine(account.boxes[0].clone())
                } else {
                    self.phase = EstablishPhase::Failed(EstablishError::MissingIdle);
                    EstablishAction::Abort(EstablishError::MissingIdle)
                }
            },
            (EstablishPhase::Selecting, EstablishEvent::Done) => {
                self.phase = EstablishPhase::Ready;
                EstablishAction::Finish
            },
            _ => {
                self.phase = EstablishPhase::Failed(EstablishError::Connectivity);
                EstablishAction::Abort(EstablishError::Connectivity)
            },
        }
    }
}

} // verus!
