use sml_rs::parser::common::Value as SmlValue;
use sml_rs::parser::complete::MessageBody;
use vstd::prelude::*;

use crate::text::{hex_text, push_hex, push_signed_decimal, signed_decimal};

verus! {

/// Register code of the cumulative active-energy import counter (1-0:1.8.0*255).
pub open spec fn import_counter_code() -> Seq<u8> {
    seq![1u8, 0u8, 1u8, 8u8, 0u8, 255u8]
}

/// Register code of the instantaneous active power (1-0:16.7.0*255).
pub open spec fn active_power_code() -> Seq<u8> {
    seq![1u8, 0u8, 16u8, 7u8, 0u8, 255u8]
}

/// A value of a list entry.
#[derive(Clone, Debug, PartialEq, Eq)]
pub enum Value {
    I32(i32),
    I64(i64),
    U64(u64),
    Bytes(Vec<u8>),
    /// A nested list; its content is not used.
    List,
    /// Any other value type (booleans and the narrower integers).
    Other,
}

/// One `(register code, value)` pair of a list response.
#[derive(Clone, Debug, PartialEq, Eq)]
pub struct ListEntry {
    pub obj_name: Vec<u8>,
    pub value: Value,
}

/// A validated protocol message: the entries of its list responses, in order.
#[derive(Clone, Debug, PartialEq, Eq)]
pub struct DecodedMessage {
    pub entries: Vec<ListEntry>,
}

/// The registers of interest found in one message.
#[derive(Clone, Copy, Debug, PartialEq, Eq)]
pub struct ExtractedUpdate {
    /// Instantaneous active power, 0.1 W.
    pub power: Option<i32>,
    /// Cumulative import counter, 0.1 Wh.
    pub counter: Option<u64>,
}

/// A 64-bit power value limited to the range of `i32`.
pub open spec fn clamp_i32(v: i64) -> i32 {
    if v < i32::MIN {
        i32::MIN
    } else if v > i32::MAX {
        i32::MAX
    } else {
        v as i32
    }
}

/// The power carried by an entry, if it names the power register with a
/// signed 32- or 64-bit value (a 64-bit value saturates at the `i32` range).
pub open spec fn entry_power(e: ListEntry) -> Option<i32> {
    if e.obj_name@ == active_power_code() {
        match e.value {
            Value::I32(v) => Some(v),
            Value::I64(v) => Some(clamp_i32(v)),
            _ => None,
        }
    } else {
        None
    }
}

/// The counter carried by an entry, if it names the import register with an
/// unsigned 64-bit value or a signed one that is not negative.
pub open spec fn entry_counter(e: ListEntry) -> Option<u64> {
    if e.obj_name@ == import_counter_code() {
        match e.value {
            Value::I64(v) => if v >= 0 {
                Some(v as u64)
            } else {
                None
            },
            Value::U64(v) => Some(v),
            _ => None,
        }
    } else {
        None
    }
}

/// The last power value over `entries`, later entries overriding earlier ones.
pub open spec fn last_power(entries: Seq<ListEntry>) -> Option<i32>
    decreases entries.len(),
{
    if entries.len() == 0 {
        None
    } else {
        match entry_power(entries.last()) {
            Some(v) => Some(v),
            None => last_power(entries.drop_last()),
        }
    }
}

/// The last counter value over `entries`, later entries overriding earlier ones.
pub open spec fn last_counter(entries: Seq<ListEntry>) -> Option<u64>
    decreases entries.len(),
{
    if entries.len() == 0 {
        None
    } else {
        match entry_counter(entries.last()) {
            Some(v) => Some(v),
            None => last_counter(entries.drop_last()),
        }
    }
}

/// The registers of interest in `entries`.
pub open spec fn extract_spec(entries: Seq<ListEntry>) -> ExtractedUpdate {
    ExtractedUpdate { power: last_power(entries), counter: last_counter(entries) }
}

/// Exact byte equality of two register codes.
pub fn code_eq(a: &[u8], b: &[u8]) -> (r: bool)
    ensures
        r == (a@ == b@),
{
    if a.len() != b.len() {
        return false;
    }
    let mut i: usize = 0;
    while i < a.len()
        invariant
            a@.len() == b@.len(),
            0 <= i <= a@.len(),
            forall|j: int| 0 <= j < i ==> a@[j] == b@[j],
        decreases a@.len() - i,
    {
        if a[i] != b[i] {
            return false;
        }
        i = i + 1;
    }
    assert(a@ =~= b@);
    true
}

/// Register code of the import counter, as bytes.
pub const IMPORT_COUNTER_CODE: [u8; 6] = [1, 0, 1, 8, 0, 255];

/// Register code of the active power, as bytes.
pub const ACTIVE_POWER_CODE: [u8; 6] = [1, 0, 16, 7, 0, 255];

/// Reads the power carried by one entry.
pub fn power_of(e: &ListEntry) -> (r: Option<i32>)
    ensures
        r == entry_power(*e),
{
    let code: [u8; 6] = ACTIVE_POWER_CODE;
    assert(code@ =~= active_power_code());
    if !code_eq(e.obj_name.as_slice(), code.as_slice()) {
        return None;
    }
    match &e.value {
        Value::I32(v) => Some(*v),
        Value::I64(v) => Some(
            if *v < i32::MIN as i64 {
                i32::MIN
            } else if *v > i32::MAX as i64 {
                i32::MAX
            } else {
                *v as i32
            },
        ),
        _ => None,
    }
}

/// Reads the counter carried by one entry.
pub fn counter_of(e: &ListEntry) -> (r: Option<u64>)
    ensures
        r == entry_counter(*e),
{
    let code: [u8; 6] = IMPORT_COUNTER_CODE;
    assert(code@ =~= import_counter_code());
    if !code_eq(e.obj_name.as_slice(), code.as_slice()) {
        return None;
    }
    match &e.value {
        Value::I64(v) => if *v >= 0 {
            Some(*v as u64)
        } else {
            None
        },
        Value::U64(v) => Some(*v),
        _ => None,
    }
}

/// The diagnostic name of a register code in the code table.
pub open spec fn register_name_spec(code: Seq<u8>) -> Option<Seq<char>> {
    if code == seq![1u8, 0u8, 0u8, 0u8, 1u8, 255u8] {
        Some("Serial number"@)
    } else if code == seq![1u8, 0u8, 0u8, 0u8, 9u8, 255u8] {
        Some("Device identification"@)
    } else if code == seq![1u8, 0u8, 1u8, 8u8, 0u8, 255u8] {
        Some("Import total"@)
    } else if code == seq![1u8, 0u8, 1u8, 8u8, 1u8, 255u8] {
        Some("Import tariff 1"@)
    } else if code == seq![1u8, 0u8, 1u8, 8u8, 2u8, 255u8] {
        Some("Import tariff 2"@)
    } else if code == seq![1u8, 0u8, 16u8, 7u8, 0u8, 255u8] {
        Some("Active power"@)
    } else if code == seq![1u8, 0u8, 36u8, 7u8, 0u8, 255u8] {
        Some("Active power L1"@)
    } else if code == seq![1u8, 0u8, 56u8, 7u8, 0u8, 255u8] {
        Some("Active power L2"@)
    } else if code == seq![1u8, 0u8, 76u8, 7u8, 0u8, 255u8] {
        Some("Active power L3"@)
    } else if code == seq![129u8, 129u8, 199u8, 130u8, 3u8, 255u8] {
        Some("Manufacturer identification"@)
    } else if code == seq![129u8, 129u8, 199u8, 130u8, 5u8, 255u8] {
        Some("Public key"@)
    } else {
        None
    }
}

/// Looks a register code up in the code table, by exact byte equality.
pub fn register_name(code: &[u8]) -> (r: Option<&'static str>)
    ensures
        match r {
            Some(n) => register_name_spec(code@) == Some(n@),
            None => register_name_spec(code@) is None,
        },
{
    let c0: [u8; 6] = [1, 0, 0, 0, 1, 255];
    assert(c0@ =~= seq![1u8, 0u8, 0u8, 0u8, 1u8, 255u8]);
    if code_eq(code, c0.as_slice()) {
        return Some("Serial number");
    }
    let c1: [u8; 6] = [1, 0, 0, 0, 9, 255];
    assert(c1@ =~= seq![1u8, 0u8, 0u8, 0u8, 9u8, 255u8]);
    if code_eq(code, c1.as_slice()) {
        return Some("Device identification");
    }
    let c2: [u8; 6] = [1, 0, 1, 8, 0, 255];
    assert(c2@ =~= seq![1u8, 0u8, 1u8, 8u8, 0u8, 255u8]);
    if code_eq(code, c2.as_slice()) {
        return Some("Import total");
    }
    let c3: [u8; 6] = [1, 0, 1, 8, 1, 255];
    assert(c3@ =~= seq![1u8, 0u8, 1u8, 8u8, 1u8, 255u8]);
    if code_eq(code, c3.as_slice()) {
        return Some("Import tariff 1");
    }
    let c4: [u8; 6] = [1, 0, 1, 8, 2, 255];
    assert(c4@ =~= seq![1u8, 0u8, 1u8, 8u8, 2u8, 255u8]);
    if code_eq(code, c4.as_slice()) {
        return Some("Import tariff 2");
    }
    let c5: [u8; 6] = [1, 0, 16, 7, 0, 255];
    assert(c5@ =~= seq![1u8, 0u8, 16u8, 7u8, 0u8, 255u8]);
    if code_eq(code, c5.as_slice()) {
        return Some("Active power");
    }
    let c6: [u8; 6] = [1, 0, 36, 7, 0, 255];
    assert(c6@ =~= seq![1u8, 0u8, 36u8, 7u8, 0u8, 255u8]);
    if code_eq(code, c6.as_slice()) {
        return Some("Active power L1");
    }
    let c7: [u8; 6] = [1, 0, 56, 7, 0, 255];
    assert(c7@ =~= seq![1u8, 0u8, 56u8, 7u8, 0u8, 255u8]);
    if code_eq(code, c7.as_slice()) {
        return Some("Active power L2");
    }
    let c8: [u8; 6] = [1, 0, 76, 7, 0, 255];
    assert(c8@ =~= seq![1u8, 0u8, 76u8, 7u8, 0u8, 255u8]);
    if code_eq(code, c8.as_slice()) {
        return Some("Active power L3");
    }
    let c9: [u8; 6] = [129, 129, 199, 130, 3, 255];
    assert(c9@ =~= seq![129u8, 129u8, 199u8, 130u8, 3u8, 255u8]);
    if code_eq(code, c9.as_slice()) {
        return Some("Manufacturer identification");
    }
    let c10: [u8; 6] = [129, 129, 199, 130, 5, 255];
    assert(c10@ =~= seq![129u8, 129u8, 199u8, 130u8, 5u8, 255u8]);
    if code_eq(code, c10.as_slice()) {
        return Some("Public key");
    }
    None
}

/// The diagnostic text of a value: integers in decimal, byte strings in
/// hexadecimal, anything else empty.
pub open spec fn value_text_spec(v: Value) -> Seq<char> {
    match v {
        Value::I32(x) => signed_decimal(x as int),
        Value::I64(x) => signed_decimal(x as int),
        Value::Bytes(b) => hex_text(b@),
        _ => Seq::empty(),
    }
}

/// Renders a value for diagnostic logging.
pub fn value_text(v: &Value) -> (r: String)
    ensures
        r@ == value_text_spec(*v),
{
    let mut s = String::new();
    match v {
        Value::I32(x) => push_signed_decimal(&mut s, *x as i64),
        Value::I64(x) => push_signed_decimal(&mut s, *x),
        Value::Bytes(b) => push_hex(&mut s, b.as_slice()),
        _ => {},
    }
    s
}

/// Walks a message's entries and picks out the power and counter registers;
/// when a register occurs more than once, the last usable entry wins.
pub fn extract(msg: &DecodedMessage) -> (r: ExtractedUpdate)
    ensures
        r == extract_spec(msg.entries@),
{
    let mut power: Option<i32> = None;
    let mut counter: Option<u64> = None;
    let mut i: usize = 0;
    while i < msg.entries.len()
        invariant
            0 <= i <= msg.entries@.len(),
            power == last_power(msg.entries@.take(i as int)),
            counter == last_counter(msg.entries@.take(i as int)),
        decreases msg.entries@.len() - i,
    {
        let e = &msg.entries[i];
        assert(msg.entries@.take(i as int + 1).drop_last() =~= msg.entries@.take(i as int));
        match power_of(e) {
            Some(v) => {
                power = Some(v);
            },
            None => {},
        }
        match counter_of(e) {
            Some(v) => {
                counter = Some(v);
            },
            None => {},
        }
        i = i + 1;
    }
    assert(msg.entries@.take(i as int) =~= msg.entries@);
    ExtractedUpdate { power, counter }
}


/// The list entries of the GetList responses in an SML file, in order, as
/// parsed by sml_rs; `None` when the bytes are no valid SML file.
pub uninterp spec fn parsed_entries(frame: Seq<u8>) -> Option<Seq<ListEntry>>;

/// Relies on sml_rs::parser::complete::parse: it parses a decoded frame into
/// SML messages; the entries of their GetList responses are copied out in
/// order, each value by its variant.
#[verifier::external_body]
pub fn parse_frame(frame: &[u8]) -> (r: Option<DecodedMessage>)
    ensures
        match r {
            Some(m) => parsed_entries(frame@) == Some(m.entries@),
            None => parsed_entries(frame@) is None,
        },
{
    let messages = sml_rs::parser::complete::parse(frame).ok()?.messages;
    let lists = messages.into_iter().filter_map(|m| match m.message_body {
        MessageBody::GetListResponse(l) => Some(l.val_list),
        _ => None,
    });
    let entries = lists.flatten().map(|e| ListEntry { obj_name: e.obj_name.to_vec(), value: match e.value {
        SmlValue::I32(x) => Value::I32(x),
        SmlValue::I64(x) => Value::I64(x),
        SmlValue::U64(x) => Value::U64(x),
        SmlValue::Bytes(b) => Value::Bytes(b.to_vec()),
        SmlValue::List(_) => Value::List,
        _ => Value::Other,
    } }).collect();
    Some(DecodedMessage { entries })
}

} // verus!
