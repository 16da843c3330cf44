use vstd::prelude::*;

use crate::error::BridgeError;

verus! {

/// A scalar as the database engine knows it. A real number is carried as the
/// bit pattern of its IEEE 754 double, so that the codec never computes on it.
#[derive(Debug)]
pub enum DbValue {
    Null,
    Integer(i64),
    Real(u64),
    Text(String),
    Blob(Vec<u8>),
}

/// A dynamically typed term of the host runtime, as far as the codec looks at it.
/// `Atom` is any atomic symbol, `nil` included; `Other` stands for every shape
/// the codec does not recognise (tuples, lists, maps, pids, ...).
#[derive(Debug)]
pub enum HostTerm {
    Atom(String),
    Boolean(bool),
    Integer(i64),
    Float(u64),
    Text(String),
    Binary(Vec<u8>),
    Other,
}

/// The spelling of the host's nil atom, which stands for an absent value.
pub open spec fn nil_spelling() -> Seq<char> {
    seq!['n', 'i', 'l']
}

/// The model of a database value: strings and byte vectors by their views.
pub enum ValueModel {
    Null,
    Integer(i64),
    Real(u64),
    Text(Seq<char>),
    Blob(Seq<u8>),
}

/// The model of a host term.
pub enum TermModel {
    Atom(Seq<char>),
    Boolean(bool),
    Integer(i64),
    Float(u64),
    Text(Seq<char>),
    Binary(Seq<u8>),
    Other,
}

impl View for DbValue {
    type V = ValueModel;

    open spec fn view(&self) -> ValueModel {
        match self {
            DbValue::Null => ValueModel::Null,
            DbValue::Integer(i) => ValueModel::Integer(*i),
            DbValue::Real(bits) => ValueModel::Real(*bits),
            DbValue::Text(s) => ValueModel::Text(s@),
            DbValue::Blob(b) => ValueModel::Blob(b@),
        }
    }
}

impl View for HostTerm {
    type V = TermModel;

    open spec fn view(&self) -> TermModel {
        match self {
            HostTerm::Atom(s) => TermModel::Atom(s@),
            HostTerm::Boolean(b) => TermModel::Boolean(*b),
            HostTerm::Integer(i) => TermModel::Integer(*i),
            HostTerm::Float(bits) => TermModel::Float(*bits),
            HostTerm::Text(s) => TermModel::Text(s@),
            HostTerm::Binary(b) => TermModel::Binary(b@),
            HostTerm::Other => TermModel::Other,
        }
    }
}

/// Decoding, as a first match over the term's shape: nil, any other atom,
/// integer, boolean, float, text, binary. `None` when no shape matches.
pub open spec fn decode_model(t: TermModel) -> Option<ValueModel> {
    match t {
        TermModel::Atom(s) => if s == nil_spelling() {
            Some(ValueModel::Null)
        } else {
            Some(ValueModel::Text(s))
        },
        TermModel::Integer(i) => Some(ValueModel::Integer(i)),
        TermModel::Boolean(b) => Some(ValueModel::Integer(if b { 1 } else { 0 })),
        TermModel::Float(bits) => Some(ValueModel::Real(bits)),
        TermModel::Text(s) => Some(ValueModel::Text(s)),
        TermModel::Binary(b) => Some(ValueModel::Blob(b)),
        TermModel::Other => None,
    }
}

/// Encoding, which never fails: null becomes the host's nil atom.
pub open spec fn encode_model(v: ValueModel) -> TermModel {
    match v {
        ValueModel::Null => TermModel::Atom(nil_spelling()),
        ValueModel::Integer(i) => TermModel::Integer(i),
        ValueModel::Real(bits) => TermModel::Float(bits),
        ValueModel::Text(s) => TermModel::Text(s),
        ValueModel::Blob(b) => TermModel::Binary(b),
    }
}

fn is_nil_spelling(s: &String) -> (r: bool)
    ensures
        r == (s@ == nil_spelling()),
{
    let t = s.as_str();
    let n = t.unicode_len();
    if n != 3 {
        return false;
    }
    let r = t.get_char(0) == 'n' && t.get_char(1) == 'i' && t.get_char(2) == 'l';
    if r {
        assert(t@ =~= nil_spelling());
    }
    r
}

fn copy_bytes(b: &Vec<u8>) -> (r: Vec<u8>)
    ensures
        r@ == b@,
{
    let mut r: Vec<u8> = Vec::with_capacity(b.len());
    let mut i: usize = 0;
    while i < b.len()
        invariant
            i <= b.len(),
            r@ == b@.subrange(0, i as int),
        decreases b.len() - i,
    {
        r.push(b[i]);
        i = i + 1;
    }
    assert(r@ =~= b@);
    r
}

/// Turns a host term into a database value, or fails with a decode error when
/// the term has none of the recognised shapes.
pub fn decode(term: &HostTerm) -> (r: Result<DbValue, BridgeError>)
    ensures
        match decode_model(term@) {
            Some(m) => r matches Ok(v) && v@ == m,
            None => r matches Err(BridgeError::Decode),
        },
{
    match term {
        HostTerm::Atom(s) => {
            if is_nil_spelling(s) {
                Ok(DbValue::Null)
            } else {
                Ok(DbValue::Text(s.clone()))
            }
        },
        HostTerm::Integer(i) => Ok(DbValue::Integer(*i)),
        HostTerm::Boolean(b) => {
            if *b {
                Ok(DbValue::Integer(1))
            } else {
                Ok(DbValue::Integer(0))
            }
        },
        HostTerm::Float(bits) => Ok(DbValue::Real(*bits)),
        HostTerm::Text(s) => Ok(DbValue::Text(s.clone())),
        HostTerm::Binary(b) => Ok(DbValue::Blob(copy_bytes(b))),
        HostTerm::Other => Err(BridgeError::Decode),
    }
}

/// Turns a database value into the host term that stands for it.
pub fn encode(value: &DbValue) -> (r: HostTerm)
    ensures
        r@ == encode_model(value@),
{
    match value {
        DbValue::Null => {
            let nil = "nil";
            proof {
                reveal_strlit("nil");
            }
            let s = nil.to_string();
            assert(s@ =~= nil_spelling());
            HostTerm::Atom(s)
        },
        DbValue::Integer(i) => HostTerm::Integer(*i),
        DbValue::Real(bits) => HostTerm::Float(*bits),
        DbValue::Text(s) => HostTerm::Text(s.clone()),
        DbValue::Blob(b) => HostTerm::Binary(copy_bytes(b)),
    }
}

/// Decodes every parameter of a statement, in order; the first term that cannot
/// be decoded fails the whole list and nothing is returned.
pub fn decode_params(terms: &Vec<HostTerm>) -> (r: Result<Vec<DbValue>, BridgeError>)
    ensures
        (forall|i: int| 0 <= i < terms@.len() ==> (#[trigger] decode_model(terms@[i]@)).is_some())
            ==> (r matches Ok(vs) && vs@.len() == terms@.len() && forall|i: int|
            0 <= i < terms@.len() ==> Some(#[trigger] vs@[i]@) == decode_model(terms@[i]@)),
        (exists|i: int| 0 <= i < terms@.len() && (#[trigger] decode_model(terms@[i]@)).is_none())
            ==> r matches Err(BridgeError::Decode),
{
    let mut out: Vec<DbValue> = Vec::with_capacity(terms.len());
    let mut i: usize = 0;
    while i < terms.len()
        invariant
            i <= terms@.len(),
            out@.len() == i,
            forall|j: int| 0 <= j < i ==> Some(#[trigger] out@[j]@) == decode_model(terms@[j]@),
            forall|j: int| 0 <= j < i ==> (#[trigger] decode_model(terms@[j]@)).is_some(),
        decreases terms.len() - i,
    {
        match decode(&terms[i]) {
            Ok(v) => out.push(v),
            Err(e) => {
                assert(decode_model(terms@[i as int]@).is_none());
                return Err(e);
            },
        }
        i = i + 1;
    }
    Ok(out)
}

/// Every value survives a trip through the host and back unchanged.
pub proof fn lemma_round_trip(v: ValueModel)
    ensures
        decode_model(encode_model(v)) == Some(v),
{
}

/// A boolean decodes to the integer one or zero, and that integer encodes to a
/// plain integer term, never back to a boolean.
pub proof fn lemma_boolean_collapse(b: bool)
    ensures
        decode_model(TermModel::Boolean(b)) == Some(ValueModel::Integer(if b { 1 } else { 0 })),
        encode_model(ValueModel::Integer(if b { 1 } else { 0 })) == TermModel::Integer(
            if b { 1 } else { 0 },
        ),
        encode_model(ValueModel::Integer(if b { 1 } else { 0 })) != TermModel::Boolean(b),
{
}

/// An atom other than `nil` decodes to the text of its spelling.
pub proof fn lemma_atom_as_text(s: Seq<char>)
    requires
        s != nil_spelling(),
    ensures
        decode_model(TermModel::Atom(s)) == Some(ValueModel::Text(s)),
{
}

} // verus!
