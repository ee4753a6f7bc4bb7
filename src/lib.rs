//! Phase scheduling for a shared tomato timer: the sequence of work phases and
//! breaks, the session that runs them one at a time, and the decisions of the
//! timer that races a phase's deadline against requests to skip or stop it.
use vstd::prelude::*;

pub mod clock;
pub mod config;
pub mod session;
pub mod text;
pub mod timer;

pub use config::{ConfigError, PhaseType, SessionConfig};
pub use session::{PhaseHandle, Session, SessionError, SessionStatus};
pub use timer::{
    next_step, resolve, wake_action, NextStep, Phase, PhaseMessage, PhaseResult, Received,
    WakeAction, WakeSource,
};
