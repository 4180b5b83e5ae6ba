//! The writer half of the access layer: a handle that formats structured
//! records as `KEY=VALUE` buffers and decides what the native submit
//! status means.
//!
//! The handle owns one buffer per field and rewrites them in place on every
//! submission, so repeated sends reuse the same allocations. Exclusive
//! access during one format-and-submit round is enforced by `&mut self`;
//! a caller that shares one handle across threads serializes it externally.

use vstd::prelude::*;

use crate::fields::decimal;
use crate::fields::field_bytes;
use crate::fields::lemma_field_round_trip;
use crate::fields::message_key;
use crate::fields::object_pid_key;
use crate::fields::priority_key;
use crate::fields::push_bytes;
use crate::fields::push_decimal;
use crate::fields::push_message_prefix;
use crate::fields::push_object_pid_prefix;
use crate::fields::push_priority_prefix;
use crate::fields::value_of;
use crate::reader::CursorState;
use crate::reader::JournalReader;

verus! {

/// Log priority levels, mirroring the syslog severities `0` through `7`.
#[derive(Clone, Copy, Debug, PartialEq, Eq, Structural)]
pub enum Priority {
    /// Severity 0: the system is unusable.
    Emerg,
    /// Severity 1: action must be taken immediately.
    Alert,
    /// Severity 2: critical condition.
    Crit,
    /// Severity 3: error condition.
    Error,
    /// Severity 4: warning condition.
    Warning,
    /// Severity 5: normal but significant condition.
    Notice,
    /// Severity 6: informational.
    Info,
    /// Severity 7: debug-level message.
    Debug,
}

/// The syslog integer of a priority level.
pub open spec fn priority_code(p: Priority) -> u8 {
    match p {
        Priority::Emerg => 0u8,
        Priority::Alert => 1u8,
        Priority::Crit => 2u8,
        Priority::Error => 3u8,
        Priority::Warning => 4u8,
        Priority::Notice => 5u8,
        Priority::Info => 6u8,
        Priority::Debug => 7u8,
    }
}

impl Priority {
    /// The syslog integer of this level, `0` for `Emerg` through `7` for
    /// `Debug`.
    pub fn code(&self) -> (c: u8)
        ensures
            c == priority_code(*self),
    {
        match self {
            Priority::Emerg => 0,
            Priority::Alert => 1,
            Priority::Crit => 2,
            Priority::Error => 3,
            Priority::Warning => 4,
            Priority::Notice => 5,
            Priority::Info => 6,
            Priority::Debug => 7,
        }
    }
}

/// The failure outcomes of the journal operations. Each native failure
/// wraps the operating-system error code taken from the native status,
/// surfaced unmodified; `InvalidFieldName` is raised locally, before any
/// native call.
#[derive(Clone, Copy, Debug, PartialEq, Eq, Structural)]
pub enum JournalError {
    /// The native submit-vector call returned a nonzero status.
    SubmitFailed(i32),
    /// The native open-cursor call returned a nonzero status.
    OpenFailed(i32),
    /// The native advance-cursor call returned a negative status.
    AdvanceFailed(i32),
    /// The native get-field call returned a status that means neither
    /// success nor "no such field".
    FieldLookupFailed(i32),
    /// A field name holds an embedded null byte and cannot cross the
    /// null-terminated native boundary.
    InvalidFieldName,
}

/// Handle to the journal for writing: owns the field buffers of one record
/// and rewrites them on each submission.
pub struct Journal {
    pri_field: Vec<u8>,
    msg_field: Vec<u8>,
    pid_field: Vec<u8>,
}

impl Journal {
    /// The bytes currently in the priority field buffer.
    pub closed spec fn priority_field(self) -> Seq<u8> {
        self.pri_field@
    }

    /// The bytes currently in the message field buffer.
    pub closed spec fn message_field(self) -> Seq<u8> {
        self.msg_field@
    }

    /// The bytes currently in the originating-process field buffer; empty
    /// when the handle does not log on behalf of another process.
    pub closed spec fn object_pid_field(self) -> Seq<u8> {
        self.pid_field@
    }

    /// The buffers submitted for one record: priority and message always,
    /// the originating-process field only when it is set.
    pub open spec fn payload(self) -> Seq<Seq<u8>> {
        if self.object_pid_field().len() == 0 {
            seq![self.priority_field(), self.message_field()]
        } else {
            seq![self.priority_field(), self.message_field(), self.object_pid_field()]
        }
    }

    /// Constructs a journal handle with empty field buffers.
    pub fn new() -> (j: Journal)
        ensures
            j.priority_field() == Seq::<u8>::empty(),
            j.message_field() == Seq::<u8>::empty(),
            j.object_pid_field() == Seq::<u8>::empty(),
    {
        Journal { pri_field: Vec::new(), msg_field: Vec::new(), pid_field: Vec::new() }
    }

    /// Constructs a journal handle that sends records on behalf of the
    /// process `pid`: every submission will carry an `OBJECT_PID` field.
    pub fn with_object_pid(pid: u32) -> (j: Journal)
        ensures
            j.priority_field() == Seq::<u8>::empty(),
            j.message_field() == Seq::<u8>::empty(),
            j.object_pid_field() == field_bytes(object_pid_key(), decimal(pid as nat)),
    {
        let mut j = Journal::new();
        j.set_process_id(pid);
        j
    }

    /// Rewrites the priority buffer to `PRIORITY=<code>`.
    pub fn set_priority(&mut self, pri: Priority)
        ensures
            final(self).priority_field() == field_bytes(
                priority_key(),
                decimal(priority_code(pri) as nat),
            ),
            final(self).message_field() == old(self).message_field(),
            final(self).object_pid_field() == old(self).object_pid_field(),
    {
        self.pri_field.clear();
        push_priority_prefix(&mut self.pri_field);
        push_decimal(&mut self.pri_field, pri.code() as u32);
    }

    /// Rewrites the message buffer to `MESSAGE=<msg>`. The message may hold
    /// any bytes but an embedded null, newlines included: record fields
    /// cross the native boundary as length-prefixed buffers.
    pub fn set_message(&mut self, msg: &[u8])
        ensures
            final(self).message_field() == field_bytes(message_key(), msg@),
            final(self).priority_field() == old(self).priority_field(),
            final(self).object_pid_field() == old(self).object_pid_field(),
    {
        self.msg_field.clear();
        push_message_prefix(&mut self.msg_field);
        push_bytes(&mut self.msg_field, msg);
    }

    /// Rewrites the originating-process buffer to `OBJECT_PID=<pid>`.
    pub fn set_process_id(&mut self, pid: u32)
        ensures
            final(self).object_pid_field() == field_bytes(object_pid_key(), decimal(pid as nat)),
            final(self).priority_field() == old(self).priority_field(),
            final(self).message_field() == old(self).message_field(),
    {
        self.pid_field.clear();
        push_object_pid_prefix(&mut self.pid_field);
        push_decimal(&mut self.pid_field, pid);
    }

    /// Copies the field buffers of the current record out as the vector to
    /// hand to the native submit call: priority, message, and, only when
    /// set, the originating-process field.
    pub fn prepare(&self) -> (bufs: Vec<Vec<u8>>)
        ensures
            bufs@.len() == self.payload().len(),
            forall|i: int| 0 <= i < bufs@.len() ==> bufs@[i]@ == self.payload()[i],
    {
        let mut bufs: Vec<Vec<u8>> = Vec::new();
        let mut pri: Vec<u8> = Vec::new();
        push_bytes(&mut pri, self.pri_field.as_slice());
        bufs.push(pri);
        let mut msg: Vec<u8> = Vec::new();
        push_bytes(&mut msg, self.msg_field.as_slice());
        bufs.push(msg);
        if self.pid_field.len() > 0 {
            let mut pid: Vec<u8> = Vec::new();
            push_bytes(&mut pid, self.pid_field.as_slice());
            bufs.push(pid);
        }
        bufs
    }

    /// Formats the record for `pri` and `msg` into this handle's buffers
    /// and returns the `KEY=VALUE` payload whose submission, in one native
    /// call, sends the entry to the journal. The status that call returns
    /// is judged by [`submit_outcome`].
    pub fn send(&mut self, pri: Priority, msg: &[u8]) -> (bufs: Vec<Vec<u8>>)
        ensures
            final(self).priority_field() == field_bytes(
                priority_key(),
                decimal(priority_code(pri) as nat),
            ),
            final(self).message_field() == field_bytes(message_key(), msg@),
            final(self).object_pid_field() == old(self).object_pid_field(),
            bufs@.len() == final(self).payload().len(),
            forall|i: int| 0 <= i < bufs@.len() ==> bufs@[i]@ == final(self).payload()[i],
    {
        self.set_priority(pri);
        self.set_message(msg);
        self.prepare()
    }

    /// Opens the journal for reading, judging the status of the native
    /// open-cursor call made with the default flags (all accessible
    /// journal files). Zero yields a reader positioned before the first
    /// entry; any other status yields `OpenFailed`.
    pub fn read(&self, status: i32) -> (r: Result<JournalReader, JournalError>)
        requires
            status != i32::MIN,
        ensures
            status == 0 ==> r == Result::<JournalReader, JournalError>::Ok(
                JournalReader { state: CursorState::BeforeFirst, step: 0u64 },
            ),
            status != 0 ==> r == Result::<JournalReader, JournalError>::Err(
                JournalError::OpenFailed((-status) as i32),
            ),
    {
        JournalReader::open(status)
    }
}

/// Judges the status returned by the native submit-vector call: zero means
/// the record was accepted; any other status is surfaced unmodified as
/// `SubmitFailed`.
pub fn submit_outcome(status: i32) -> (r: Result<(), JournalError>)
    ensures
        status == 0 ==> r == Result::<(), JournalError>::Ok(()),
        status != 0 ==> r == Result::<(), JournalError>::Err(JournalError::SubmitFailed(status)),
{
    if status == 0 {
        Ok(())
    } else {
        Err(JournalError::SubmitFailed(status))
    }
}

/// Formatting a record and extracting its fields from the buffers the
/// journal stores are inverses: the `MESSAGE` buffer built for a message
/// yields that message back, and the `PRIORITY` buffer yields the decimal
/// rendering of the priority's syslog integer. This is the round trip a
/// submitted record makes through the journal, which keeps `KEY=VALUE`
/// buffers whole.
pub proof fn lemma_send_read_round_trip(pri: Priority, msg: Seq<u8>)
    ensures
        value_of(message_key().len(), field_bytes(message_key(), msg)) == msg,
        value_of(
            priority_key().len(),
            field_bytes(priority_key(), decimal(priority_code(pri) as nat)),
        ) == decimal(priority_code(pri) as nat),
{
    lemma_field_round_trip(message_key(), msg);
    lemma_field_round_trip(priority_key(), decimal(priority_code(pri) as nat));
}

} // verus!
