//! Decision logic of a push-wait mail notifier: account descriptors,
//! connection establishment, new-mail detection, reconnection with backoff
//! and the start-up selection of connectable accounts.
mod account;
mod detect;
mod establish;
mod orchestrate;
mod supervise;

pub use account::{Account, StartupError, Transport, trimmed, validate_accounts};
pub use detect::{
    DetectAction, DetectEvent, DetectPhase, Detector, answers, decide, is_new_batch, is_next_mark,
    is_raised_mark, lemma_next_mark_unique, search_query,
};
pub use supervise::{
    MAX_ATTEMPTS, Supervisor, SupervisorAction, SupervisorEvent, SupervisorState, backoff_delay,
    backoff_secs, lemma_dead_is_final, lemma_reconnect_schedule, run, transition,
};
pub use establish::{
    EstablishAction, EstablishError, EstablishEvent, EstablishPhase, Establisher, answers_establish,
    has_idle, idle_capability, lists_idle,
};
pub use orchestrate::{lemma_survivors_empty, select_connected, survivors};
