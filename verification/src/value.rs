//! The structural value model shared by every engine adapter.
//!
//! A [`Value`] is host-owned data: null, a boolean, a 32-bit integer, a
//! floating-point number carried as its IEEE-754 bit pattern, text, an
//! ordered array, or a string-keyed object. Narrowing accessors succeed only
//! when the runtime tag matches; on a mismatch they fail with a
//! [`Error::JsValueError`] and never coerce.
//!
//! Arrays preserve construction order. Objects guarantee key uniqueness:
//! [`Value::from_object`] keeps, for every key, the last pair given for it.

use vstd::prelude::*;

use crate::error::Error;
use crate::error::value_error;

verus! {

/// A structural value exchanged with a script engine.
///
/// A floating-point number is held as the bit pattern of the IEEE-754
/// double, so that the verified core carries it exactly; the adapters turn
/// the bits back into a native number at the engine boundary.
#[derive(Debug, PartialEq)]
pub enum Value {
    /// The null value.
    Null,
    /// A boolean.
    Bool(bool),
    /// A 32-bit integer.
    Int(i32),
    /// A floating-point number, as the bit pattern of the IEEE-754 double.
    Float(u64),
    /// A text value.
    Text(String),
    /// An array of values, in construction order.
    Array(Vec<Value>),
    /// A string-keyed object; the keys are unique.
    Object(Vec<(String, Value)>),
}

/// What a value narrows to as a boolean: the payload of a `Bool`, nothing else.
pub open spec fn narrowed_bool(v: Value) -> Option<bool> {
    match v {
        Value::Bool(b) => Some(b),
        _ => None,
    }
}

/// What a value narrows to as an integer: the payload of an `Int`, nothing else.
pub open spec fn narrowed_int(v: Value) -> Option<i32> {
    match v {
        Value::Int(i) => Some(i),
        _ => None,
    }
}

/// What a value narrows to as a float's bit pattern: the payload of a
/// `Float`, nothing else. In particular an `Int` never widens into a float.
pub open spec fn narrowed_float_bits(v: Value) -> Option<u64> {
    match v {
        Value::Float(bits) => Some(bits),
        _ => None,
    }
}

/// What a value narrows to as text: the payload of a `Text`, nothing else.
pub open spec fn narrowed_text(v: Value) -> Option<String> {
    match v {
        Value::Text(s) => Some(s),
        _ => None,
    }
}

/// Object lookup: the value of the last pair whose key reads `k`, if any.
pub open spec fn lookup(es: Seq<(String, Value)>, k: Seq<char>) -> Option<Value>
    decreases es.len(),
{
    if es.len() == 0 {
        None
    } else if es.last().0@ == k {
        Some(es.last().1)
    } else {
        lookup(es.drop_last(), k)
    }
}

/// Whether some pair of `es` has a key that reads `k`.
pub open spec fn has_key(es: Seq<(String, Value)>, k: Seq<char>) -> bool {
    exists|i: int| 0 <= i < es.len() && es[i].0@ == k
}

/// Whether no two pairs of `es` share a key.
pub open spec fn unique_keys(es: Seq<(String, Value)>) -> bool {
    forall|i: int, j: int| 0 <= i < j < es.len() ==> es[i].0@ != es[j].0@
}

/// Appending a pair makes it the one `lookup` finds for its key and leaves
/// every other key's result unchanged.
pub proof fn lemma_lookup_push(es: Seq<(String, Value)>, p: (String, Value), k: Seq<char>)
    ensures
        lookup(es.push(p), k) == (if p.0@ == k {
            Some(p.1)
        } else {
            lookup(es, k)
        }),
{
    assert(es.push(p).drop_last() =~= es);
    assert(es.push(p).last() == p);
}

/// A key is found by `lookup` exactly when some pair carries it.
pub proof fn lemma_lookup_some_iff_has_key(es: Seq<(String, Value)>, k: Seq<char>)
    ensures
        lookup(es, k) is Some <==> has_key(es, k),
    decreases es.len(),
{
    if es.len() > 0 {
        if es.last().0@ == k {
            assert(es[es.len() - 1].0@ == k);
        } else {
            lemma_lookup_some_iff_has_key(es.drop_last(), k);
            if has_key(es, k) {
                let i = choose|i: int| 0 <= i < es.len() && es[i].0@ == k;
                assert(es.drop_last()[i] == es[i]);
            }
        }
    }
}

impl Value {
    /// The null value.
    pub fn null() -> (r: Value)
        ensures
            r == Value::Null,
    {
        Value::Null
    }

    /// A value holding the given boolean.
    pub fn from_bool(input: bool) -> (r: Value)
        ensures
            r == Value::Bool(input),
    {
        Value::Bool(input)
    }

    /// A value holding the given integer.
    pub fn from_int(input: i32) -> (r: Value)
        ensures
            r == Value::Int(input),
    {
        Value::Int(input)
    }

    /// A value holding the float with the given IEEE-754 bit pattern.
    pub fn from_float_bits(input: u64) -> (r: Value)
        ensures
            r == Value::Float(input),
    {
        Value::Float(input)
    }

    /// A value holding the given text.
    pub fn from_string(input: String) -> (r: Value)
        ensures
            r == Value::Text(input),
    {
        Value::Text(input)
    }

    /// An array value holding the given items, in their given order.
    pub fn from_array(items: Vec<Value>) -> (r: Value)
        ensures
            r == Value::Array(items),
    {
        Value::Array(items)
    }

    /// An object value built from key-value pairs.
    ///
    /// The keys of the result are unique: when several pairs share a key,
    /// the last pair given for that key wins. The result's entry order is
    /// not part of the contract; only lookup is.
    pub fn from_object(entries: Vec<(String, Value)>) -> (r: Value)
        ensures
            r matches Value::Object(es) && unique_keys(es@) && forall|k: Seq<char>|
                #[trigger] lookup(es@, k) == lookup(entries@, k),
    {
        let ghost all = entries@;
        let mut rest = entries;
        let mut out: Vec<(String, Value)> = Vec::new();
        loop
            invariant
                unique_keys(out@),
                forall|k: Seq<char>| #[trigger] lookup(all, k) == (if lookup(out@, k) is Some {
                    lookup(out@, k)
                } else {
                    lookup(rest@, k)
                }),
            ensures
                rest@.len() == 0,
            decreases rest.len(),
        {
            let ghost prev_rest = rest@;
            let ghost prev_out = out@;
            match rest.pop() {
                None => {
                    break ;
                },
                Some(pair) => {
                    proof {
                        assert(prev_rest =~= rest@.push(pair));
                        lemma_lookup_some_iff_has_key(prev_out, pair.0@);
                    }
                    if !contains_key(&out, &pair.0) {
                        out.push(pair);
                        proof {
                            assert(out@ =~= prev_out.push(pair));
                            assert(forall|j: int| 0 <= j < prev_out.len() ==> prev_out[j].0@
                                != pair.0@);
                            assert forall|k: Seq<char>| #[trigger] lookup(all, k) == (if lookup(
                                out@,
                                k,
                            ) is Some {
                                lookup(out@, k)
                            } else {
                                lookup(rest@, k)
                            }) by {
                                lemma_lookup_push(prev_out, pair, k);
                                lemma_lookup_push(rest@, pair, k);
                            }
                        }
                    } else {
                        proof {
                            assert forall|k: Seq<char>| #[trigger] lookup(all, k) == (if lookup(
                                out@,
                                k,
                            ) is Some {
                                lookup(out@, k)
                            } else {
                                lookup(rest@, k)
                            }) by {
                                lemma_lookup_push(rest@, pair, k);
                            }
                        }
                    }
                },
            }
        }
        proof {
            assert forall|k: Seq<char>| #[trigger] lookup(out@, k) == lookup(all, k) by {
                assert(lookup(rest@, k) == None::<Value>);
            }
        }
        Value::Object(out)
    }

    /// Whether the value is null.
    pub fn is_null(&self) -> (r: bool)
        ensures
            r == (*self matches Value::Null),
    {
        match self {
            Value::Null => true,
            _ => false,
        }
    }

    /// Whether the value is a boolean.
    pub fn is_bool(&self) -> (r: bool)
        ensures
            r == (narrowed_bool(*self) is Some),
    {
        match self {
            Value::Bool(_) => true,
            _ => false,
        }
    }

    /// Whether the value is an integer.
    pub fn is_int(&self) -> (r: bool)
        ensures
            r == (narrowed_int(*self) is Some),
    {
        match self {
            Value::Int(_) => true,
            _ => false,
        }
    }

    /// Whether the value is a float.
    pub fn is_float(&self) -> (r: bool)
        ensures
            r == (narrowed_float_bits(*self) is Some),
    {
        match self {
            Value::Float(_) => true,
            _ => false,
        }
    }

    /// Whether the value is text.
    pub fn is_string(&self) -> (r: bool)
        ensures
            r == (narrowed_text(*self) is Some),
    {
        match self {
            Value::Text(_) => true,
            _ => false,
        }
    }

    /// The boolean this value holds; a typed error when the tag differs.
    pub fn into_bool(self) -> (r: Result<bool, Error>)
        ensures
            match narrowed_bool(self) {
                Some(b) => r == Ok::<bool, Error>(b),
                None => r matches Err(e) && e matches Error::JsValueError(d) && d@
                    == "not a bool"@,
            },
    {
        match self {
            Value::Bool(b) => Ok(b),
            _ => Err(value_error("not a bool".to_owned())),
        }
    }

    /// The integer this value holds; a typed error when the tag differs.
    pub fn into_int(self) -> (r: Result<i32, Error>)
        ensures
            match narrowed_int(self) {
                Some(i) => r == Ok::<i32, Error>(i),
                None => r matches Err(e) && e matches Error::JsValueError(d) && d@
                    == "not an int"@,
            },
    {
        match self {
            Value::Int(i) => Ok(i),
            _ => Err(value_error("not an int".to_owned())),
        }
    }

    /// The bit pattern of the float this value holds; a typed error when the
    /// tag differs. An integer is never widened.
    pub fn into_float_bits(self) -> (r: Result<u64, Error>)
        ensures
            match narrowed_float_bits(self) {
                Some(bits) => r == Ok::<u64, Error>(bits),
                None => r matches Err(e) && e matches Error::JsValueError(d) && d@
                    == "not a float"@,
            },
    {
        match self {
            Value::Float(bits) => Ok(bits),
            _ => Err(value_error("not a float".to_owned())),
        }
    }

    /// The text this value holds, byte for byte; a typed error when the tag
    /// differs.
    pub fn into_string(self) -> (r: Result<String, Error>)
        ensures
            match narrowed_text(self) {
                Some(s) => r == Ok::<String, Error>(s),
                None => r matches Err(e) && e matches Error::JsValueError(d) && d@
                    == "not a string"@,
            },
    {
        match self {
            Value::Text(s) => Ok(s),
            _ => Err(value_error("not a string".to_owned())),
        }
    }
}

/// Search an entry list for a key.
fn contains_key(es: &Vec<(String, Value)>, k: &String) -> (r: bool)
    ensures
        r == has_key(es@, k@),
{
    let mut i: usize = 0;
    while i < es.len()
        invariant
            0 <= i <= es@.len(),
            forall|j: int| 0 <= j < i ==> es@[j].0@ != k@,
        decreases es@.len() - i,
    {
        if es[i].0.eq(k) {
            proof {
                assert(0 <= i < es@.len() && es@[i as int].0@ == k@);
            }
            return true;
        }
        i = i + 1;
    }
    false
}

/// Whether no float node occurs anywhere in the value.
pub open spec fn float_free(v: Value) -> bool
    decreases v,
{
    match v {
        Value::Float(_) => false,
        Value::Array(items) => forall|i: int|
            0 <= i < items@.len() ==> float_free(#[trigger] items@[i]),
        Value::Object(es) => forall|i: int| 0 <= i < es@.len() ==> float_free(#[trigger] es@[i].1),
        _ => true,
    }
}

/// Whether `r` is exactly `v` with every float node replaced by its
/// degraded form: a single-entry object carrying the decimal rendering of
/// the float's bit pattern under the marker key. Everything else — tags,
/// text, array order, object keys and their order — is unchanged.
pub open spec fn degraded_form(v: Value, r: Value) -> bool
    decreases v,
{
    match v {
        Value::Float(bits) => r matches Value::Object(es) && es@.len() == 1 && es@[0].0@
            == "__f64_bits"@ && (es@[0].1 matches Value::Text(s) && s@ == dec_str(bits as nat)),
        Value::Array(items) => r matches Value::Array(out) && out@.len() == items@.len()
            && forall|i: int|
            0 <= i < items@.len() ==> degraded_form(#[trigger] items@[i], out@[i]),
        Value::Object(es) => r matches Value::Object(out) && out@.len() == es@.len() && forall|
            i: int,
        |
            0 <= i < es@.len() ==> out@[i].0@ == (#[trigger] es@[i]).0@ && degraded_form(
                es@[i].1,
                out@[i].1,
            ),
        _ => r == v,
    }
}

/// The decimal digit characters.
pub open spec fn dec_digit(d: nat) -> char {
    if d == 0 {
        '0'
    } else if d == 1 {
        '1'
    } else if d == 2 {
        '2'
    } else if d == 3 {
        '3'
    } else if d == 4 {
        '4'
    } else if d == 5 {
        '5'
    } else if d == 6 {
        '6'
    } else if d == 7 {
        '7'
    } else if d == 8 {
        '8'
    } else {
        '9'
    }
}

/// The decimal digits of a number, most significant first.
pub open spec fn dec_str(n: nat) -> Seq<char>
    decreases n,
{
    if n < 10 {
        seq![dec_digit(n)]
    } else {
        dec_str(n / 10).push(dec_digit(n % 10))
    }
}

/// Relies on u64's Display implementation: it prints the value's decimal
/// digits, most significant first.
#[verifier::external_body]
fn u64_to_decimal(n: u64) -> (r: String)
    ensures
        r@ == dec_str(n as nat),
{
    n.to_string()
}

/// The float-free stand-in for one float: a single-entry object carrying
/// the decimal rendering of the bit pattern under the marker key.
fn degraded_float(bits: u64) -> (r: Value)
    ensures
        float_free(r),
        r matches Value::Object(es) && es@.len() == 1 && es@[0].0@ == "__f64_bits"@ && (es@[0].1
            matches Value::Text(s) && s@ == dec_str(bits as nat)),
{
    let mut es: Vec<(String, Value)> = Vec::new();
    es.push(("__f64_bits".to_owned(), Value::Text(u64_to_decimal(bits))));
    proof {
        assert(float_free(es@[0].1));
    }
    Value::Object(es)
}

/// Rewrite every float node into its float-free degraded form, leaving all
/// other structure as it is. The engine adapters apply this before handing
/// a value to an engine whose binding cannot carry the bits natively; the
/// payload script restores the numbers on its side of the boundary.
pub fn degrade_floats(v: &Value) -> (r: Value)
    ensures
        float_free(r),
        degraded_form(*v, r),
    decreases *v,
{
    match v {
        Value::Null => Value::Null,
        Value::Bool(b) => Value::Bool(*b),
        Value::Int(i) => Value::Int(*i),
        Value::Float(bits) => degraded_float(*bits),
        Value::Text(s) => Value::Text(s.clone()),
        Value::Array(items) => {
            let mut out: Vec<Value> = Vec::new();
            let mut i: usize = 0;
            while i < items.len()
                invariant
                    *v matches Value::Array(w) && w@ == items@,
                    0 <= i <= items@.len(),
                    out@.len() == i,
                    forall|j: int| 0 <= j < out@.len() ==> float_free(#[trigger] out@[j]),
                    forall|j: int|
                        0 <= j < out@.len() ==> degraded_form(items@[j], #[trigger] out@[j]),
                decreases items@.len() - i,
            {
                proof {
                    assert(decreases_to!(*v => v->Array_0));
                    assert(decreases_to!(v->Array_0 => v->Array_0@));
                    assert(decreases_to!(v->Array_0@ => v->Array_0@[i as int]));
                    assert(items@[i as int] == v->Array_0@[i as int]);
                }
                let d = degrade_floats(&items[i]);
                out.push(d);
                i = i + 1;
            }
            Value::Array(out)
        },
        Value::Object(entries) => {
            let mut out: Vec<(String, Value)> = Vec::new();
            let mut i: usize = 0;
            while i < entries.len()
                invariant
                    *v matches Value::Object(w) && w@ == entries@,
                    0 <= i <= entries@.len(),
                    out@.len() == i,
                    forall|j: int| 0 <= j < out@.len() ==> float_free(#[trigger] out@[j].1),
                    forall|j: int|
                        0 <= j < out@.len() ==> (#[trigger] out@[j]).0@ == entries@[j].0@
                            && degraded_form(entries@[j].1, out@[j].1),
                decreases entries@.len() - i,
            {
                proof {
                    assert(decreases_to!(*v => v->Object_0));
                    assert(decreases_to!(v->Object_0 => v->Object_0@));
                    assert(decreases_to!(v->Object_0@ => v->Object_0@[i as int]));
                    assert(decreases_to!(v->Object_0@[i as int] => v->Object_0@[i as int].1));
                    assert(entries@[i as int].1 == v->Object_0@[i as int].1);
                }
                let key = entries[i].0.clone();
                let d = degrade_floats(&entries[i].1);
                out.push((key, d));
                i = i + 1;
            }
            Value::Object(out)
        },
    }
}

/// Law: a value built from a primitive is observed as exactly that primitive
/// kind, narrows back to the value it was built from, and narrows to no
/// other primitive kind.
pub proof fn lemma_primitive_round_trip(b: bool, i: i32, bits: u64, s: String)
    ensures
        narrowed_bool(Value::Bool(b)) == Some(b),
        narrowed_int(Value::Int(i)) == Some(i),
        narrowed_float_bits(Value::Float(bits)) == Some(bits),
        narrowed_text(Value::Text(s)) == Some(s),
        narrowed_int(Value::Bool(b)) is None && narrowed_float_bits(Value::Bool(b)) is None
            && narrowed_text(Value::Bool(b)) is None,
        narrowed_bool(Value::Int(i)) is None && narrowed_float_bits(Value::Int(i)) is None
            && narrowed_text(Value::Int(i)) is None,
        narrowed_bool(Value::Float(bits)) is None && narrowed_int(Value::Float(bits)) is None
            && narrowed_text(Value::Float(bits)) is None,
        narrowed_bool(Value::Text(s)) is None && narrowed_int(Value::Text(s)) is None
            && narrowed_float_bits(Value::Text(s)) is None,
{
}

/// Law: an array value holds exactly the items it was built from, in their
/// construction order; any consumer that inspects it positionally observes
/// that order.
pub proof fn lemma_array_preserves_order(items: Vec<Value>)
    ensures
        Value::Array(items)->Array_0 == items,
        forall|i: int|
            0 <= i < items@.len() ==> #[trigger] Value::Array(items)->Array_0@[i] == items@[i],
{
}

} // verus!
