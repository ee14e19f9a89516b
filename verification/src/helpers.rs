//! Typed access to the state store: reads that decode the stored value
//! into one shape and fail soft on a mismatch, and writes that encode a
//! value under a key. A read of a key that is absent, or present with an
//! incompatible shape, yields `None`; the mismatch case also emits a
//! diagnostic naming the key and the stored shape, since callbacks query
//! state that another plugin may not have initialized yet.

use std::io::Write;

use vstd::prelude::*;

use crate::store::StateStore;
use crate::value::Value;

verus! {

/// What an untyped read of the store yields.
pub open spec fn read_value(m: Map<Seq<char>, Value>, k: Seq<char>) -> Option<Value> {
    if m.contains_key(k) {
        Some(m[k])
    } else {
        None
    }
}

/// What a read of the store as a signed integer yields.
pub open spec fn read_i64(m: Map<Seq<char>, Value>, k: Seq<char>) -> Option<i64> {
    if m.contains_key(k) {
        m[k].decode_i64()
    } else {
        None
    }
}

/// What a read of the store as an unsigned integer yields.
pub open spec fn read_u64(m: Map<Seq<char>, Value>, k: Seq<char>) -> Option<u64> {
    if m.contains_key(k) {
        m[k].decode_u64()
    } else {
        None
    }
}

/// What a read of the store as a floating-point bit pattern yields.
pub open spec fn read_f64_bits(m: Map<Seq<char>, Value>, k: Seq<char>) -> Option<u64> {
    if m.contains_key(k) {
        m[k].decode_f64_bits()
    } else {
        None
    }
}

/// What a read of the store as a boolean yields.
pub open spec fn read_bool(m: Map<Seq<char>, Value>, k: Seq<char>) -> Option<bool> {
    if m.contains_key(k) {
        m[k].decode_bool()
    } else {
        None
    }
}

/// What a read of the store as text yields.
pub open spec fn read_text(m: Map<Seq<char>, Value>, k: Seq<char>) -> Option<Seq<char>> {
    if m.contains_key(k) {
        m[k].decode_text()
    } else {
        None
    }
}

/// What a read of the store as a sequence yields.
pub open spec fn read_list(m: Map<Seq<char>, Value>, k: Seq<char>) -> Option<Seq<Value>> {
    if m.contains_key(k) {
        m[k].decode_list()
    } else {
        None
    }
}

/// What a read of the store as a mapping yields.
pub open spec fn read_dict(m: Map<Seq<char>, Value>, k: Seq<char>) -> Option<
    Seq<(String, Value)>,
> {
    if m.contains_key(k) {
        m[k].decode_dict()
    } else {
        None
    }
}

/// Relies on std::io::stderr: writes the diagnostic line to standard
/// error.
#[verifier::external_body]
fn log_shape_mismatch(key: &str, kind: &str) {
    let _ = writeln!(
        std::io::stderr(),
        "Warning: attempted to access key {} which was of an unexpected type {}.",
        key,
        kind,
    );
}

/// Gets the value stored under a key. Returns `None` if the key is absent.
pub fn get_state<'a>(state: &'a StateStore, key: &str) -> (r: Option<&'a Value>)
    requires
        state.wf(),
    ensures
        match r {
            Some(v) => read_value(state@, key@) == Some(*v),
            None => read_value(state@, key@) is None,
        },
{
    state.get(key)
}

/// Puts a value into the state store, overwriting any previous entry for
/// the key.
pub fn put_state(state: &mut StateStore, key: &str, value: Value)
    requires
        old(state).wf(),
    ensures
        final(state).wf(),
        final(state)@ == old(state)@.insert(key@, value),
{
    state.put(key, value)
}

/// Gets a signed integer from the store. Returns `None` if the key is
/// absent or holds another shape; the mismatch also emits a diagnostic.
pub fn get_i64_state(state: &StateStore, key: &str) -> (r: Option<i64>)
    requires
        state.wf(),
    ensures
        r == read_i64(state@, key@),
{
    match state.get(key) {
        None => None,
        Some(v) => match v.as_i64() {
            Some(n) => Some(n),
            None => {
                log_shape_mismatch(key, v.kind());
                None
            },
        },
    }
}

/// Gets an unsigned integer from the store. Returns `None` if the key is
/// absent or holds another shape; the mismatch also emits a diagnostic.
pub fn get_u64_state(state: &StateStore, key: &str) -> (r: Option<u64>)
    requires
        state.wf(),
    ensures
        r == read_u64(state@, key@),
{
    match state.get(key) {
        None => None,
        Some(v) => match v.as_u64() {
            Some(n) => Some(n),
            None => {
                log_shape_mismatch(key, v.kind());
                None
            },
        },
    }
}

/// Gets the bit pattern of an IEEE-754 double from the store. Returns
/// `None` if the key is absent or holds another shape; the mismatch also
/// emits a diagnostic. The embedder turns the bits into a number with
/// `f64::from_bits`.
pub fn get_f64_bits_state(state: &StateStore, key: &str) -> (r: Option<u64>)
    requires
        state.wf(),
    ensures
        r == read_f64_bits(state@, key@),
{
    match state.get(key) {
        None => None,
        Some(v) => match v.as_f64_bits() {
            Some(b) => Some(b),
            None => {
                log_shape_mismatch(key, v.kind());
                None
            },
        },
    }
}

/// Gets a boolean from the store. Returns `None` if the key is absent or
/// holds another shape; the mismatch also emits a diagnostic.
pub fn get_bool_state(state: &StateStore, key: &str) -> (r: Option<bool>)
    requires
        state.wf(),
    ensures
        r == read_bool(state@, key@),
{
    match state.get(key) {
        None => None,
        Some(v) => match v.as_bool() {
            Some(b) => Some(b),
            None => {
                log_shape_mismatch(key, v.kind());
                None
            },
        },
    }
}

/// Gets text from the store. Returns `None` if the key is absent or holds
/// another shape; the mismatch also emits a diagnostic.
pub fn get_text_state<'a>(state: &'a StateStore, key: &str) -> (r: Option<&'a String>)
    requires
        state.wf(),
    ensures
        match r {
            Some(s) => read_text(state@, key@) == Some(s@),
            None => read_text(state@, key@) is None,
        },
{
    match state.get(key) {
        None => None,
        Some(v) => match v.as_text() {
            Some(s) => Some(s),
            None => {
                log_shape_mismatch(key, v.kind());
                None
            },
        },
    }
}

/// Gets a sequence from the store. Returns `None` if the key is absent or
/// holds another shape; the mismatch also emits a diagnostic.
pub fn get_list_state<'a>(state: &'a StateStore, key: &str) -> (r: Option<&'a Vec<Value>>)
    requires
        state.wf(),
    ensures
        match r {
            Some(l) => read_list(state@, key@) == Some(l@),
            None => read_list(state@, key@) is None,
        },
{
    match state.get(key) {
        None => None,
        Some(v) => match v.as_list() {
            Some(l) => Some(l),
            None => {
                log_shape_mismatch(key, v.kind());
                None
            },
        },
    }
}

/// Gets a mapping from the store. Returns `None` if the key is absent or
/// holds another shape; the mismatch also emits a diagnostic.
pub fn get_dict_state<'a>(state: &'a StateStore, key: &str) -> (r: Option<
    &'a Vec<(String, Value)>,
>)
    requires
        state.wf(),
    ensures
        match r {
            Some(d) => read_dict(state@, key@) == Some(d@),
            None => read_dict(state@, key@) is None,
        },
{
    match state.get(key) {
        None => None,
        Some(v) => match v.as_dict() {
            Some(d) => Some(d),
            None => {
                log_shape_mismatch(key, v.kind());
                None
            },
        },
    }
}

/// The store that a sequence of puts builds, in order, from an empty
/// store.
pub open spec fn store_after(writes: Seq<(Seq<char>, Value)>) -> Map<Seq<char>, Value>
    decreases writes.len(),
{
    if writes.len() == 0 {
        Map::empty()
    } else {
        store_after(writes.drop_last()).insert(writes.last().0, writes.last().1)
    }
}

/// A key that no put ever wrote reads as absent, whatever else was
/// written.
pub proof fn lemma_never_written_absent(writes: Seq<(Seq<char>, Value)>, k: Seq<char>)
    requires
        forall|i: int| 0 <= i < writes.len() ==> writes[i].0 != k,
    ensures
        read_value(store_after(writes), k) is None,
    decreases writes.len(),
{
    if writes.len() > 0 {
        lemma_never_written_absent(writes.drop_last(), k);
    }
}

/// Round trip: a value written under a key reads back unchanged under the
/// same key, both untyped and through the typed read of its own shape,
/// for every supported shape.
pub proof fn lemma_round_trip(m: Map<Seq<char>, Value>, k: Seq<char>, v: Value)
    ensures
        read_value(m.insert(k, v), k) == Some(v),
        v matches Value::Int(n) ==> read_i64(m.insert(k, v), k) == Some(n),
        v matches Value::UInt(n) ==> read_u64(m.insert(k, v), k) == Some(n),
        v matches Value::Float(b) ==> read_f64_bits(m.insert(k, v), k) == Some(b),
        v matches Value::Bool(b) ==> read_bool(m.insert(k, v), k) == Some(b),
        v matches Value::Text(s) ==> read_text(m.insert(k, v), k) == Some(s@),
        v matches Value::List(l) ==> read_list(m.insert(k, v), k) == Some(l@),
        v matches Value::Dict(d) ==> read_dict(m.insert(k, v), k) == Some(d@),
{
}

/// A key written with one shape and read with an incompatible shape reads
/// as absent; the exec getters return `None` there rather than panic.
pub proof fn lemma_mismatched_shape_absent(m: Map<Seq<char>, Value>, k: Seq<char>, v: Value)
    ensures
        !(v is Int) ==> read_i64(m.insert(k, v), k) is None,
        !(v is UInt) ==> read_u64(m.insert(k, v), k) is None,
        !(v is Float) ==> read_f64_bits(m.insert(k, v), k) is None,
        !(v is Bool) ==> read_bool(m.insert(k, v), k) is None,
        !(v is Text) ==> read_text(m.insert(k, v), k) is None,
        !(v is List) ==> read_list(m.insert(k, v), k) is None,
        !(v is Dict) ==> read_dict(m.insert(k, v), k) is None,
{
}

} // verus!
