//! The dynamically shaped values held by the state store: a tagged union
//! over the shapes plugins exchange, with one decode function per shape.
//! Decoding a value as a shape it does not have yields `None` rather than
//! a panic; that soft failure is the store's contract for type mismatches.

use vstd::prelude::*;

verus! {

/// A dynamically typed value: null, signed and unsigned integers, floating
/// point, text, booleans, ordered sequences, and string-keyed mappings
/// (held as an entry list).
///
/// A floating-point value is held as the bit pattern of an IEEE-754 double,
/// a plain integer: verified code never computes on floats, so the store
/// carries them opaquely and the embedder converts with `to_bits` and
/// `from_bits`. Each shape decodes only as itself; in particular the two
/// integer shapes are deliberately distinct, and a signed value read as
/// unsigned (or conversely) is a mismatch.
#[derive(Debug, PartialEq, Eq)]
pub enum Value {
    Null,
    Int(i64),
    UInt(u64),
    Float(u64),
    Bool(bool),
    Text(String),
    List(Vec<Value>),
    Dict(Vec<(String, Value)>),
}

impl Value {
    /// What a decode of this value as a signed integer yields.
    pub open spec fn decode_i64(self) -> Option<i64> {
        match self {
            Value::Int(n) => Some(n),
            _ => None,
        }
    }

    /// What a decode of this value as an unsigned integer yields.
    pub open spec fn decode_u64(self) -> Option<u64> {
        match self {
            Value::UInt(n) => Some(n),
            _ => None,
        }
    }

    /// What a decode of this value as a floating-point bit pattern yields.
    pub open spec fn decode_f64_bits(self) -> Option<u64> {
        match self {
            Value::Float(b) => Some(b),
            _ => None,
        }
    }

    /// What a decode of this value as a boolean yields.
    pub open spec fn decode_bool(self) -> Option<bool> {
        match self {
            Value::Bool(b) => Some(b),
            _ => None,
        }
    }

    /// Decode as a signed integer; `None` on any other shape.
    pub fn as_i64(&self) -> (r: Option<i64>)
        ensures
            r == self.decode_i64(),
    {
        match self {
            Value::Int(n) => Some(*n),
            _ => None,
        }
    }

    /// Decode as an unsigned integer; `None` on any other shape.
    pub fn as_u64(&self) -> (r: Option<u64>)
        ensures
            r == self.decode_u64(),
    {
        match self {
            Value::UInt(n) => Some(*n),
            _ => None,
        }
    }

    /// Decode as the bit pattern of an IEEE-754 double; `None` on any
    /// other shape.
    pub fn as_f64_bits(&self) -> (r: Option<u64>)
        ensures
            r == self.decode_f64_bits(),
    {
        match self {
            Value::Float(b) => Some(*b),
            _ => None,
        }
    }

    /// Decode as a boolean; `None` on any other shape.
    pub fn as_bool(&self) -> (r: Option<bool>)
        ensures
            r == self.decode_bool(),
    {
        match self {
            Value::Bool(b) => Some(*b),
            _ => None,
        }
    }

    /// What a decode of this value as text yields.
    pub open spec fn decode_text(self) -> Option<Seq<char>> {
        match self {
            Value::Text(s) => Some(s@),
            _ => None,
        }
    }

    /// What a decode of this value as a sequence yields.
    pub open spec fn decode_list(self) -> Option<Seq<Value>> {
        match self {
            Value::List(l) => Some(l@),
            _ => None,
        }
    }

    /// What a decode of this value as a mapping yields.
    pub open spec fn decode_dict(self) -> Option<Seq<(String, Value)>> {
        match self {
            Value::Dict(d) => Some(d@),
            _ => None,
        }
    }

    /// Decode as text; `None` on any other shape.
    pub fn as_text(&self) -> (r: Option<&String>)
        ensures
            match r {
                Some(s) => self.decode_text() == Some(s@),
                None => self.decode_text() is None,
            },
    {
        match self {
            Value::Text(s) => Some(s),
            _ => None,
        }
    }

    /// Decode as a sequence; `None` on any other shape.
    pub fn as_list(&self) -> (r: Option<&Vec<Value>>)
        ensures
            match r {
                Some(l) => self.decode_list() == Some(l@),
                None => self.decode_list() is None,
            },
    {
        match self {
            Value::List(l) => Some(l),
            _ => None,
        }
    }

    /// Decode as a mapping; `None` on any other shape.
    pub fn as_dict(&self) -> (r: Option<&Vec<(String, Value)>>)
        ensures
            match r {
                Some(d) => self.decode_dict() == Some(d@),
                None => self.decode_dict() is None,
            },
    {
        match self {
            Value::Dict(d) => Some(d),
            _ => None,
        }
    }

    /// The name of this value's shape, for diagnostics.
    pub fn kind(&self) -> (r: &'static str)
        ensures
            r@ == self.kind_name(),
    {
        match self {
            Value::Null => "null",
            Value::Int(_) => "signed integer",
            Value::UInt(_) => "unsigned integer",
            Value::Float(_) => "floating point",
            Value::Bool(_) => "boolean",
            Value::Text(_) => "text",
            Value::List(_) => "sequence",
            Value::Dict(_) => "mapping",
        }
    }

    /// The shape name that `kind` returns for each variant.
    pub open spec fn kind_name(self) -> Seq<char> {
        match self {
            Value::Null => "null"@,
            Value::Int(_) => "signed integer"@,
            Value::UInt(_) => "unsigned integer"@,
            Value::Float(_) => "floating point"@,
            Value::Bool(_) => "boolean"@,
            Value::Text(_) => "text"@,
            Value::List(_) => "sequence"@,
            Value::Dict(_) => "mapping"@,
        }
    }
}

} // verus!
