//! The decisions of the leveled-logging adapter: which facade levels this
//! sink accepts, and which journal priority each accepted level maps to.
//!
//! A generic logging front-end hands records over with one of five levels.
//! The adapter forwards them to [`Journal::send`]; the registration with
//! the front-end itself lives outside this crate, but the level policy is
//! decided — and proved — here.

use vstd::prelude::*;

use crate::fields::decimal;
use crate::fields::field_bytes;
use crate::fields::message_key;
use crate::fields::priority_key;
use crate::journal::priority_code;
use crate::journal::Journal;
use crate::journal::Priority;

verus! {

/// The levels of a generic logging front-end, most severe first.
#[derive(Clone, Copy, Debug, PartialEq, Eq, Structural)]
pub enum LogLevel {
    /// An error.
    Error,
    /// A warning.
    Warn,
    /// Informational.
    Info,
    /// Debug-level detail.
    Debug,
    /// Tracing detail, which this sink does not accept.
    Trace,
}

/// The journal priority a facade level is forwarded at. Only levels the
/// sink accepts are forwarded, so the `Trace` case is never sent; it is
/// mapped like `Debug` to keep the function total.
pub open spec fn facade_priority(level: LogLevel) -> Priority {
    match level {
        LogLevel::Error => Priority::Error,
        LogLevel::Warn => Priority::Warning,
        LogLevel::Info => Priority::Info,
        LogLevel::Debug => Priority::Debug,
        LogLevel::Trace => Priority::Debug,
    }
}

/// Whether this sink accepts records at `level`: every level but `Trace`.
pub fn enabled(level: LogLevel) -> (r: bool)
    ensures
        r == (level != LogLevel::Trace),
{
    !matches!(level, LogLevel::Trace)
}

/// The journal priority for an accepted facade level.
pub fn priority_for(level: LogLevel) -> (p: Priority)
    requires
        level != LogLevel::Trace,
    ensures
        p == facade_priority(level),
{
    match level {
        LogLevel::Error => Priority::Error,
        LogLevel::Warn => Priority::Warning,
        LogLevel::Info => Priority::Info,
        LogLevel::Debug => Priority::Debug,
        LogLevel::Trace => Priority::Debug,
    }
}

impl Journal {
    /// Forwards one facade record: formats it at the priority that
    /// `level` maps to and returns the payload for the native submit
    /// call, exactly as [`Journal::send`] does. `Trace` records are not
    /// accepted ([`enabled`]) and must not reach this function.
    pub fn log(&mut self, level: LogLevel, msg: &[u8]) -> (bufs: Vec<Vec<u8>>)
        requires
            level != LogLevel::Trace,
        ensures
            final(self).priority_field() == field_bytes(
                priority_key(),
                decimal(priority_code(facade_priority(level)) as nat),
            ),
            final(self).message_field() == field_bytes(message_key(), msg@),
            final(self).object_pid_field() == old(self).object_pid_field(),
            bufs@.len() == final(self).payload().len(),
            forall|i: int| 0 <= i < bufs@.len() ==> bufs@[i]@ == final(self).payload()[i],
    {
        let pri = priority_for(level);
        self.send(pri, msg)
    }
}

} // verus!
