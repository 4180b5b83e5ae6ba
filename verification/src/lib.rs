//! Safe access layer over the systemd journal: building structured log
//! records for submission, and a verified model of the cursor that iterates
//! journal entries.
//!
//! The native journal service is reached through a C interface that the
//! verified library cannot call itself; every native status code and buffer
//! therefore enters this crate as a plain value, and the functions here
//! decide, with proved contracts, what each outcome means and how the
//! reader's state advances.

mod facade;
mod fields;
mod journal;
mod reader;

pub use facade::enabled;
pub use facade::facade_priority;
pub use facade::priority_for;
pub use facade::LogLevel;

pub use fields::decimal;
pub use fields::field_bytes;
pub use fields::has_nul;
pub use fields::message_key;
pub use fields::object_pid_key;
pub use fields::priority_key;
pub use fields::value_of;
pub use journal::lemma_send_read_round_trip;
pub use journal::priority_code;
pub use journal::submit_outcome;
pub use journal::Journal;
pub use journal::JournalError;
pub use journal::Priority;
pub use reader::advance_outcome;
pub use reader::advanced;
pub use reader::close_due;
pub use reader::closed_down;
pub use reader::lemma_close_once;
pub use reader::lemma_exhaustion_stable;
pub use reader::lemma_next_invalidates;
pub use reader::lemma_one_live_entry;
pub use reader::CursorState;
pub use reader::FieldQuery;
pub use reader::JournalEntry;
pub use reader::JournalReader;
