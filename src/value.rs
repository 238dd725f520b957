//! Values crossing between the caller and the engine.
//!
//! The engine stores one of five kinds of value: null, a 64-bit integer, a
//! float, text and bytes. A float is carried as its IEEE-754 bit pattern, so
//! that it passes through unchanged.
use crate::error::Error;
use vstd::prelude::*;

verus! {

/// A value as the engine holds it.
#[derive(Debug, PartialEq, Eq)]
pub enum Value {
    Null,
    Integer(i64),
    /// The bit pattern of a 64-bit float.
    Real(u64),
    Text(String),
    Blob(Vec<u8>),
}

/// A value as the caller sees it.
#[derive(Debug, PartialEq, Eq)]
pub enum HostValue {
    Null,
    Int(i64),
    /// The bit pattern of a 64-bit float.
    Float(u64),
    Text(String),
    Bytes(Vec<u8>),
}

/// The mathematical form of a value of either side.
pub enum ValueModel {
    Null,
    Integer(i64),
    Real(u64),
    Text(Seq<char>),
    Blob(Seq<u8>),
}

impl View for Value {
    type V = ValueModel;

    open spec fn view(&self) -> ValueModel {
        match self {
            Value::Null => ValueModel::Null,
            Value::Integer(i) => ValueModel::Integer(*i),
            Value::Real(b) => ValueModel::Real(*b),
            Value::Text(t) => ValueModel::Text(t@),
            Value::Blob(b) => ValueModel::Blob(b@),
        }
    }
}

impl View for HostValue {
    type V = ValueModel;

    open spec fn view(&self) -> ValueModel {
        match self {
            HostValue::Null => ValueModel::Null,
            HostValue::Int(i) => ValueModel::Integer(*i),
            HostValue::Float(b) => ValueModel::Real(*b),
            HostValue::Text(t) => ValueModel::Text(t@),
            HostValue::Bytes(b) => ValueModel::Blob(b@),
        }
    }
}

/// What a caller's dynamic parameter yields when read as each supported kind:
/// whether it is null, and its integer, float, text and byte forms where it
/// has them.
pub struct ParamProbe {
    pub is_none: bool,
    pub int: Option<i64>,
    pub float: Option<u64>,
    pub text: Option<String>,
    pub bytes: Option<Vec<u8>>,
}

/// The mathematical form of a [`ParamProbe`].
pub struct ProbeModel {
    pub is_none: bool,
    pub int: Option<i64>,
    pub float: Option<u64>,
    pub text: Option<Seq<char>>,
    pub bytes: Option<Seq<u8>>,
}

impl View for ParamProbe {
    type V = ProbeModel;

    open spec fn view(&self) -> ProbeModel {
        ProbeModel {
            is_none: self.is_none,
            int: self.int,
            float: self.float,
            text: match self.text {
                Some(t) => Some(t@),
                None => None,
            },
            bytes: match self.bytes {
                Some(b) => Some(b@),
                None => None,
            },
        }
    }
}

/// The engine value bound for a parameter: the first kind in the order null,
/// integer, float, text, bytes that the parameter has; none if it has none.
pub open spec fn bound_value(p: ProbeModel) -> Option<ValueModel> {
    if p.is_none {
        Some(ValueModel::Null)
    } else if p.int is Some {
        Some(ValueModel::Integer(p.int->0))
    } else if p.float is Some {
        Some(ValueModel::Real(p.float->0))
    } else if p.text is Some {
        Some(ValueModel::Text(p.text->0))
    } else if p.bytes is Some {
        Some(ValueModel::Blob(p.bytes->0))
    } else {
        None
    }
}

/// Whether the probe `p` is what a caller value `h` yields: the form of `h`'s
/// own kind is `h` itself, and every kind bound before it is absent. Kinds
/// bound after it may be present, as an integer that also reads as a float.
pub open spec fn probe_of(p: ProbeModel, h: ValueModel) -> bool {
    match h {
        ValueModel::Null => p.is_none,
        ValueModel::Integer(i) => !p.is_none && p.int == Some(i),
        ValueModel::Real(b) => !p.is_none && p.int is None && p.float == Some(b),
        ValueModel::Text(t) => !p.is_none && p.int is None && p.float is None && p.text == Some(t),
        ValueModel::Blob(b) => !p.is_none && p.int is None && p.float is None && p.text is None
            && p.bytes == Some(b),
    }
}

/// The models of a sequence of probes.
pub open spec fn probe_models(ps: Seq<ParamProbe>) -> Seq<ProbeModel> {
    ps.map_values(|p: ParamProbe| p@)
}

/// Whether every parameter of `ps` has a kind that can be bound.
pub open spec fn all_bound(ps: Seq<ProbeModel>) -> bool {
    forall|i: int| 0 <= i < ps.len() ==> #[trigger] bound_value(ps[i]) is Some
}

/// The items of `v` in the opposite order.
fn reversed<T>(v: Vec<T>) -> (r: Vec<T>)
    ensures
        r@.len() == v@.len(),
        forall|j: int| 0 <= j < v@.len() ==> #[trigger] r@[j] == v@[v@.len() - 1 - j],
{
    let ghost orig = v@;
    let mut src = v;
    let mut out: Vec<T> = Vec::new();
    while src.len() > 0
        invariant
            src@ == orig.subrange(0, src@.len() as int),
            out@.len() + src@.len() == orig.len(),
            forall|j: int| 0 <= j < out@.len() ==> #[trigger] out@[j] == orig[orig.len() - 1 - j],
        decreases src@.len(),
    {
        let x = src.pop().unwrap();
        out.push(x);
    }
    out
}

/// Converts one parameter into the engine value it is bound as.
pub fn encode_param(p: ParamProbe) -> (r: Result<Value, Error>)
    ensures
        match bound_value(p@) {
            Some(v) => r matches Ok(x) && x@ == v,
            None => r matches Err(Error::UnsupportedParameter),
        },
{
    if p.is_none {
        Ok(Value::Null)
    } else if let Some(i) = p.int {
        Ok(Value::Integer(i))
    } else if let Some(b) = p.float {
        Ok(Value::Real(b))
    } else if let Some(t) = p.text {
        Ok(Value::Text(t))
    } else if let Some(b) = p.bytes {
        Ok(Value::Blob(b))
    } else {
        Err(Error::UnsupportedParameter)
    }
}

/// Converts positional parameters, in order; fails on the first parameter
/// whose kind cannot be bound.
pub fn encode_params(ps: Vec<ParamProbe>) -> (r: Result<Vec<Value>, Error>)
    ensures
        all_bound(probe_models(ps@)) ==> (r matches Ok(vs) && vs@.len()
            == ps@.len() && forall|i: int|
            0 <= i < ps@.len() ==> Some(#[trigger] vs@[i]@) == bound_value(ps@[i]@)),
        !all_bound(probe_models(ps@)) ==> r matches Err(
            Error::UnsupportedParameter,
        ),
{
    let ghost probes = probe_models(ps@);
    let n = ps.len();
    let mut out: Vec<Value> = Vec::new();
    let mut rest = reversed(ps);
    let ghost rev = rest@;
    let mut i: usize = 0;
    while i < n
        invariant
            probes == probe_models(ps@),
            n == probes.len(),
            i <= n,
            rev.len() == n,
            forall|j: int| 0 <= j < n ==> #[trigger] rev[j]@ == probes[n - 1 - j],
            rest@ == rev.subrange(0, n - i),
            out@.len() == i,
            forall|j: int| 0 <= j < i ==> Some(#[trigger] out@[j]@) == bound_value(probes[j]),
        decreases n - i,
    {
        let p = rest.pop().unwrap();
        assert(p@ == probes[i as int]);
        match encode_param(p) {
            Ok(v) => out.push(v),
            Err(e) => {
                assert(bound_value(probes[i as int]) is None);
                assert(!all_bound(probes));
                return Err(e);
            },
        }
        i += 1;
    }
    assert forall|j: int| 0 <= j < n implies #[trigger] bound_value(probes[j]) is Some by {
        assert(Some(out@[j]@) == bound_value(probes[j]));
    }
    Ok(out)
}

/// The caller value that an engine value reads back as.
pub fn decode_value(v: Value) -> (r: HostValue)
    ensures
        r@ == v@,
{
    match v {
        Value::Null => HostValue::Null,
        Value::Integer(i) => HostValue::Int(i),
        Value::Real(b) => HostValue::Float(b),
        Value::Text(t) => HostValue::Text(t),
        Value::Blob(b) => HostValue::Bytes(b),
    }
}

/// Reads back a row of engine values, column by column.
pub fn decode_row(row: Vec<Value>) -> (r: Vec<HostValue>)
    ensures
        r@.len() == row@.len(),
        forall|i: int| 0 <= i < row@.len() ==> (#[trigger] r@[i])@ == row@[i]@,
{
    let n = row.len();
    let mut rest = reversed(row);
    let ghost rev = rest@;
    let mut out: Vec<HostValue> = Vec::new();
    let mut i: usize = 0;
    while i < n
        invariant
            n == row@.len(),
            i <= n,
            rev.len() == n,
            forall|j: int| 0 <= j < n ==> #[trigger] rev[j]@ == row@[n - 1 - j]@,
            rest@ == rev.subrange(0, n - i),
            out@.len() == i,
            forall|j: int| 0 <= j < i ==> (#[trigger] out@[j])@ == row@[j]@,
        decreases n - i,
    {
        let v = rest.pop().unwrap();
        out.push(decode_value(v));
        i += 1;
    }
    out
}

/// A caller value bound as a parameter reads back unchanged: whatever other
/// kinds the parameter also has, the value bound for it is the one of its own
/// kind, and reading that engine value back gives the caller value again.
pub proof fn lemma_param_round_trip(p: ProbeModel, h: ValueModel)
    requires
        probe_of(p, h),
    ensures
        bound_value(p) == Some(h),
{
}

} // verus!
