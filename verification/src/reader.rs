//! The reader half of the access layer: a verified model of one native
//! cursor's lifecycle, and the per-step field lookup.
//!
//! The native cursor owns transient buffers whose validity window is
//! exactly one iteration step: data obtained for the current entry dies
//! the instant the cursor advances again. The model makes that window
//! explicit. A reader carries a monotonically increasing step counter;
//! each successful advance issues a [`JournalEntry`], a capability marked
//! with the step that produced it, and every advance bumps the counter, so
//! an entry from an earlier step can be proved invalid — and a field
//! lookup demands a valid entry.
//!
//! The native calls themselves (open, advance, get-field, close) are made
//! outside this crate; their status codes and buffers enter the functions
//! here as plain values, and the contracts pin down what each value means
//! and how the reader's state moves.

use vstd::prelude::*;

use crate::fields::has_nul;
use crate::fields::contains_nul;
use crate::fields::push_bytes;
use crate::fields::strip_key_prefix;
use crate::fields::value_of;
use crate::journal::JournalError;

verus! {

/// Where a reader's cursor stands in its lifecycle.
#[derive(Clone, Copy, Debug, PartialEq, Eq, Structural)]
pub enum CursorState {
    /// Opened, not yet advanced onto a first entry.
    BeforeFirst,
    /// Standing on a valid entry; field lookups are possible.
    OnEntry,
    /// The last advance found no more entries; no entry is obtainable, and
    /// further advances keep answering "no more".
    Exhausted,
    /// The cursor has been torn down; nothing more may be asked of it.
    Closed,
}

/// Handle to the journal for reading: the model of one native cursor,
/// exclusively owning its lifecycle from open to the single close.
#[derive(Debug)]
pub struct JournalReader {
    /// Where the cursor stands.
    pub state: CursorState,
    /// How many advances have been made: the generation counter that
    /// entries are marked with.
    pub step: u64,
}

/// A capability standing for "the cursor is currently positioned on a
/// valid record". It is issued by a successful advance and is good for
/// exactly the step that produced it: the next advance, whatever its
/// outcome, invalidates it ([`lemma_next_invalidates`]).
#[derive(Clone, Copy, Debug, PartialEq, Eq, Structural)]
pub struct JournalEntry {
    /// The advance step that issued this entry.
    pub step: u64,
}

impl JournalEntry {
    /// Whether this entry is the one `r` currently stands on: only then
    /// may its fields be looked up.
    pub open spec fn valid_for(self, r: JournalReader) -> bool {
        r.state == CursorState::OnEntry && self.step == r.step
    }
}

/// The reader after an advance driven by native status `ret`: an exhausted
/// reader does not move; otherwise the step counter rises and the state
/// follows the status — zero parks the reader at the end, a positive
/// status stands it on the next entry, a negative one (a failed native
/// advance) leaves the state in place while still invalidating any
/// outstanding entry, since the native call may have disturbed the
/// cursor's buffers.
pub open spec fn advanced(r: JournalReader, ret: i32) -> JournalReader {
    if r.state == CursorState::Exhausted {
        r
    } else if ret == 0 {
        JournalReader { state: CursorState::Exhausted, step: (r.step + 1) as u64 }
    } else if ret > 0 {
        JournalReader { state: CursorState::OnEntry, step: (r.step + 1) as u64 }
    } else {
        JournalReader { state: r.state, step: (r.step + 1) as u64 }
    }
}

/// What an advance driven by native status `ret` answers: `None` at the
/// end (and forever after), an entry for the new step on a positive
/// status, and the negated status as `AdvanceFailed` on a negative one.
pub open spec fn advance_outcome(r: JournalReader, ret: i32) -> Result<
    Option<JournalEntry>,
    JournalError,
> {
    if r.state == CursorState::Exhausted {
        Ok(None)
    } else if ret == 0 {
        Ok(None)
    } else if ret > 0 {
        Ok(Some(JournalEntry { step: (r.step + 1) as u64 }))
    } else {
        Err(JournalError::AdvanceFailed((-ret) as i32))
    }
}

/// The reader after a teardown: the same step, the cursor closed.
pub open spec fn closed_down(r: JournalReader) -> JournalReader {
    JournalReader { state: CursorState::Closed, step: r.step }
}

/// Whether tearing `r` down makes the native close call due: only when
/// its cursor is not already closed.
pub open spec fn close_due(r: JournalReader) -> bool {
    r.state != CursorState::Closed
}

impl JournalReader {
    /// Judges the status of the native open-cursor call. Zero yields a
    /// reader positioned before the first entry — never one without a
    /// validly opened cursor behind it; any other status yields
    /// `OpenFailed` carrying the negated status.
    pub fn open(status: i32) -> (r: Result<JournalReader, JournalError>)
        requires
            status != i32::MIN,
        ensures
            status == 0 ==> r == Result::<JournalReader, JournalError>::Ok(
                JournalReader { state: CursorState::BeforeFirst, step: 0u64 },
            ),
            status != 0 ==> r == Result::<JournalReader, JournalError>::Err(
                JournalError::OpenFailed((-status) as i32),
            ),
    {
        if status == 0 {
            Ok(JournalReader { state: CursorState::BeforeFirst, step: 0 })
        } else {
            Err(JournalError::OpenFailed(-status))
        }
    }

    /// Advances the reader by one step, judging the status `ret` of the
    /// native advance call made for it: `Ok(None)` when no more entries
    /// exist, `Ok(Some(entry))` bound to the new step when the cursor
    /// advanced, `AdvanceFailed` on a negative status. An exhausted reader
    /// answers `Ok(None)` without consulting `ret`: exhaustion is stable.
    /// Every advance invalidates the entries of earlier steps.
    pub fn next(&mut self, ret: i32) -> (r: Result<Option<JournalEntry>, JournalError>)
        requires
            old(self).state != CursorState::Closed,
            old(self).step < u64::MAX,
            ret != i32::MIN,
        ensures
            *final(self) == advanced(*old(self), ret),
            r == advance_outcome(*old(self), ret),
    {
        if matches!(self.state, CursorState::Exhausted) {
            return Ok(None);
        }
        self.step = self.step + 1;
        if ret == 0 {
            self.state = CursorState::Exhausted;
            Ok(None)
        } else if ret > 0 {
            self.state = CursorState::OnEntry;
            Ok(Some(JournalEntry { step: self.step }))
        } else {
            Err(JournalError::AdvanceFailed(-ret))
        }
    }

    /// Tears the reader down and reports whether the native close call is
    /// now due: true exactly on the first close, so a caller that closes
    /// whenever this answers true invokes the native close exactly once
    /// per opened cursor, and never on one already closed.
    pub fn close(&mut self) -> (native_close_due: bool)
        ensures
            *final(self) == closed_down(*old(self)),
            native_close_due == close_due(*old(self)),
    {
        let was_open = !matches!(self.state, CursorState::Closed);
        self.state = CursorState::Closed;
        was_open
    }
}

/// A validated field lookup for one entry: proof that the field name can
/// cross the null-terminated native boundary. Only [`JournalEntry::get`]
/// issues one, and only for a name free of embedded nulls, so no native
/// get-field call can be formed from an invalid name.
#[derive(Debug)]
pub struct FieldQuery {
    name: Vec<u8>,
}

impl FieldQuery {
    /// The field name this query looks up.
    pub closed spec fn name(self) -> Seq<u8> {
        self.name@
    }

    /// The null-terminated form of the field name, as the native get-field
    /// call takes it.
    pub fn cstr(&self) -> (c: Vec<u8>)
        ensures
            c@ == self.name() + seq![0u8],
    {
        let mut c: Vec<u8> = Vec::new();
        push_bytes(&mut c, self.name.as_slice());
        c.push(0);
        c
    }

    /// Judges the outcome of the native get-field call made with this
    /// query's name. Status zero: `data` is the whole `KEY=VALUE` buffer
    /// the native layer returned, and the value — everything past the key
    /// and the `=` sign — is copied out before the cursor can move again.
    /// The native "no such entry" status (-2) means the field is absent
    /// from this entry, which is not an error. Any other status is
    /// `FieldLookupFailed` carrying the negated status.
    pub fn outcome(&self, status: i32, data: &[u8]) -> (r: Result<Option<Vec<u8>>, JournalError>)
        requires
            status == 0 ==> self.name().len() + 1 <= data@.len(),
            status != i32::MIN,
        ensures
            status == 0 ==> (r matches Ok(v) && v matches Some(value) && value@ == value_of(
                self.name().len(),
                data@,
            )),
            status == -2 ==> r == Result::<Option<Vec<u8>>, JournalError>::Ok(None),
            status != 0 && status != -2 ==> r == Result::<Option<Vec<u8>>, JournalError>::Err(
                JournalError::FieldLookupFailed((-status) as i32),
            ),
    {
        if status == 0 {
            let value = strip_key_prefix(self.name.len(), data);
            Ok(Some(value))
        } else if status == -2 {
            Ok(None)
        } else {
            Err(JournalError::FieldLookupFailed(-status))
        }
    }
}

impl JournalEntry {
    /// Begins a field lookup for this entry, which must be the one the
    /// reader currently stands on. A name holding an embedded null byte
    /// fails with `InvalidFieldName` here, before anything reaches the
    /// native layer — an invalid name never yields the [`FieldQuery`]
    /// a native call is made from. A valid name yields the query whose
    /// [`FieldQuery::outcome`] judges the native answer.
    pub fn get(&self, r: &JournalReader, field: &[u8]) -> (q: Result<FieldQuery, JournalError>)
        requires
            self.valid_for(*r),
        ensures
            has_nul(field@) ==> q == Result::<FieldQuery, JournalError>::Err(
                JournalError::InvalidFieldName,
            ),
            !has_nul(field@) ==> (q matches Ok(fq) && fq.name() == field@),
    {
        if contains_nul(field) {
            return Err(JournalError::InvalidFieldName);
        }
        let mut name: Vec<u8> = Vec::new();
        push_bytes(&mut name, field);
        Ok(FieldQuery { name })
    }
}

/// Exhaustion is stable: once an advance has answered `None`, every
/// further advance answers `None` again and moves the reader no more,
/// whatever the native layer would have said — the end of iteration is an
/// outcome, not an error, and it does not come undone.
pub proof fn lemma_exhaustion_stable(r: JournalReader, ret1: i32, ret2: i32)
    requires
        advance_outcome(r, ret1) == Result::<Option<JournalEntry>, JournalError>::Ok(None),
    ensures
        advance_outcome(advanced(r, ret1), ret2) == Result::<Option<JournalEntry>, JournalError>::Ok(
            None,
        ),
        advanced(advanced(r, ret1), ret2) == advanced(r, ret1),
{
}

/// Every advance invalidates the entry it was standing on: an entry valid
/// for a reader is valid for no successor of that reader, whatever status
/// the native advance returned. Field data must therefore be copied out
/// before the next advance; afterwards no lookup can be made for the old
/// entry.
pub proof fn lemma_next_invalidates(e: JournalEntry, r: JournalReader, ret: i32)
    requires
        e.valid_for(r),
        r.step < u64::MAX,
    ensures
        !e.valid_for(advanced(r, ret)),
{
}

/// Exactly one live entry per reader: any two entries valid for the same
/// reader are the same capability, so a reader never stands on two
/// records at once.
pub proof fn lemma_one_live_entry(e1: JournalEntry, e2: JournalEntry, r: JournalReader)
    requires
        e1.valid_for(r),
        e2.valid_for(r),
    ensures
        e1 == e2,
{
}

/// The teardown signal comes at most once: however a reader is torn down,
/// tearing it down again reports no native close due. A caller that
/// invokes the native close exactly when the signal says so therefore
/// closes each opened cursor exactly once, and never one already closed.
pub proof fn lemma_close_once(r: JournalReader)
    ensures
        !close_due(closed_down(r)),
{
}

} // verus!
