//! Byte-level shape of journal fields.
//!
//! A record field crosses the native boundary as one contiguous buffer of
//! the form `KEY=VALUE`. This module gives that shape a mathematical
//! definition and provides the verified building blocks: decimal rendering
//! of numbers, appending a key or a value to a buffer, and recovering a
//! value from a `KEY=VALUE` buffer handed back by the native layer.

use vstd::prelude::*;

verus! {

/// The ASCII decimal rendering of `n`, most significant digit first,
/// with no leading zeros (`0` renders as the single byte `'0'`).
pub open spec fn decimal(n: nat) -> Seq<u8>
    decreases n,
{
    if n < 10 {
        seq![(48 + n) as u8]
    } else {
        decimal(n / 10) + seq![(48 + n % 10) as u8]
    }
}

/// Appends the decimal rendering of `n` to `buf`.
pub(crate) fn push_decimal(buf: &mut Vec<u8>, n: u32)
    ensures
        final(buf)@ == old(buf)@ + decimal(n as nat),
    decreases n,
{
    if n >= 10 {
        push_decimal(buf, n / 10);
    }
    buf.push((48 + n % 10) as u8);
}

/// The key of the priority field, `PRIORITY` in ASCII.
pub open spec fn priority_key() -> Seq<u8> {
    seq![80u8, 82u8, 73u8, 79u8, 82u8, 73u8, 84u8, 89u8]
}

/// The key of the message field, `MESSAGE` in ASCII.
pub open spec fn message_key() -> Seq<u8> {
    seq![77u8, 69u8, 83u8, 83u8, 65u8, 71u8, 69u8]
}

/// The key of the field naming the process a record is logged on behalf
/// of, `OBJECT_PID` in ASCII.
pub open spec fn object_pid_key() -> Seq<u8> {
    seq![79u8, 66u8, 74u8, 69u8, 67u8, 84u8, 95u8, 80u8, 73u8, 68u8]
}

/// The wire shape of one record field: `KEY=VALUE` in a single buffer,
/// the two parts joined by the ASCII `=` sign.
pub open spec fn field_bytes(key: Seq<u8>, value: Seq<u8>) -> Seq<u8> {
    key + seq![61u8] + value
}

/// Appends `PRIORITY=` to `buf`.
pub(crate) fn push_priority_prefix(buf: &mut Vec<u8>)
    ensures
        final(buf)@ == old(buf)@ + priority_key() + seq![61u8],
{
    buf.push(80);
    buf.push(82);
    buf.push(73);
    buf.push(79);
    buf.push(82);
    buf.push(73);
    buf.push(84);
    buf.push(89);
    buf.push(61);
    assert(buf@ =~= old(buf)@ + priority_key() + seq![61u8]);
}

/// Appends `MESSAGE=` to `buf`.
pub(crate) fn push_message_prefix(buf: &mut Vec<u8>)
    ensures
        final(buf)@ == old(buf)@ + message_key() + seq![61u8],
{
    buf.push(77);
    buf.push(69);
    buf.push(83);
    buf.push(83);
    buf.push(65);
    buf.push(71);
    buf.push(69);
    buf.push(61);
    assert(buf@ =~= old(buf)@ + message_key() + seq![61u8]);
}

/// Appends `OBJECT_PID=` to `buf`.
pub(crate) fn push_object_pid_prefix(buf: &mut Vec<u8>)
    ensures
        final(buf)@ == old(buf)@ + object_pid_key() + seq![61u8],
{
    buf.push(79);
    buf.push(66);
    buf.push(74);
    buf.push(69);
    buf.push(67);
    buf.push(84);
    buf.push(95);
    buf.push(80);
    buf.push(73);
    buf.push(68);
    buf.push(61);
    assert(buf@ =~= old(buf)@ + object_pid_key() + seq![61u8]);
}

/// Appends a copy of `bytes` to `buf`.
pub(crate) fn push_bytes(buf: &mut Vec<u8>, bytes: &[u8])
    ensures
        final(buf)@ == old(buf)@ + bytes@,
{
    let n = bytes.len();
    let mut i: usize = 0;
    while i < n
        invariant
            n == bytes@.len(),
            i <= n,
            buf@ == old(buf)@ + bytes@.subrange(0, i as int),
        decreases n - i,
    {
        buf.push(bytes[i]);
        i = i + 1;
        assert(buf@ =~= old(buf)@ + bytes@.subrange(0, i as int));
    }
    assert(buf@ =~= old(buf)@ + bytes@);
}

/// Whether `bytes` holds an embedded null byte, which the native boundary
/// cannot carry inside a field name.
pub open spec fn has_nul(bytes: Seq<u8>) -> bool {
    exists|i: int| 0 <= i < bytes.len() && bytes[i] == 0u8
}

/// Reports whether `bytes` holds a null byte.
pub(crate) fn contains_nul(bytes: &[u8]) -> (r: bool)
    ensures
        r == has_nul(bytes@),
{
    let n = bytes.len();
    let mut i: usize = 0;
    while i < n
        invariant
            n == bytes@.len(),
            i <= n,
            forall|j: int| 0 <= j < i ==> bytes@[j] != 0u8,
        decreases n - i,
    {
        if bytes[i] == 0 {
            return true;
        }
        i = i + 1;
    }
    false
}

/// The value part of a `KEY=VALUE` buffer whose key has length `key_len`:
/// everything after the key and the `=` sign.
pub open spec fn value_of(key_len: nat, data: Seq<u8>) -> Seq<u8> {
    data.skip((key_len + 1) as int)
}

/// Copies the value out of the `KEY=VALUE` buffer `data`, skipping a key of
/// length `key_len` and the `=` sign after it.
pub(crate) fn strip_key_prefix(key_len: usize, data: &[u8]) -> (value: Vec<u8>)
    requires
        key_len + 1 <= data@.len(),
    ensures
        value@ == value_of(key_len as nat, data@),
{
    let n = data.len();
    let mut value: Vec<u8> = Vec::new();
    let mut i: usize = key_len + 1;
    while i < n
        invariant
            n == data@.len(),
            key_len + 1 <= i <= n,
            value@ == data@.subrange(key_len + 1, i as int),
        decreases n - i,
    {
        value.push(data[i]);
        i = i + 1;
        assert(value@ =~= data@.subrange(key_len + 1, i as int));
    }
    assert(value@ =~= value_of(key_len as nat, data@));
    value
}

/// Recovering the value from a formatted field buffer undoes the
/// formatting: this is the shape of the round trip through the journal,
/// which stores submitted `KEY=VALUE` buffers and hands them back whole.
pub proof fn lemma_field_round_trip(key: Seq<u8>, value: Seq<u8>)
    ensures
        value_of(key.len(), field_bytes(key, value)) == value,
{
    assert(value_of(key.len(), field_bytes(key, value)) =~= value);
}

} // verus!
