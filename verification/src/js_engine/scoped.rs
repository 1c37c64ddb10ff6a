//! The scope discipline for engines whose values stay bound to the
//! context that produced them.
//!
//! Some engines cannot hand out values that outlive an execution context.
//! Where the language cannot bind such a lifetime statically, this adapter
//! enforces it dynamically: every value carries the token of the scope
//! that produced it, and every operation checks the token before touching
//! the value. A value offered to a different engine fails with a
//! reference-mismatch error; it is never reinterpreted.
//!
//! The caller chooses each engine's token at construction and must keep
//! tokens of live engines distinct; the checks here are exact with respect
//! to the tokens given.

use vstd::prelude::*;

use crate::error::Error;
use crate::error::exec_error;
use crate::js_engine::quick_js::Engine;
use crate::value::Value;
use crate::value::lookup;
use crate::value::unique_keys;

verus! {

/// A value bound to the scope that produced it, usable only through an
/// engine holding the same token.
pub struct ScopedValue {
    /// Token of the scope this value belongs to.
    pub origin: u64,
    /// The underlying data.
    pub value: Value,
}

/// A transient borrow of an engine's context: the token under which
/// scope-bound values are created.
pub struct Scope {
    /// Token of the engine this scope belongs to.
    pub engine_id: u64,
}

/// An engine whose values are scope-bound. Wraps one execution context and
/// the token that every value it produces is stamped with.
pub struct ScopedEngine {
    inner: Engine,
    id: u64,
}

impl ScopedEngine {
    /// The engine's token.
    pub closed spec fn spec_id(&self) -> u64 {
        self.id
    }

    /// The engine's token, readable at run time.
    pub fn token(&self) -> (t: u64)
        ensures
            t == self.spec_id(),
    {
        self.id
    }
}

/// The entries of a scoped object, with their scope tokens stripped.
pub open spec fn stripped(entries: Seq<(String, ScopedValue)>) -> Seq<(String, Value)> {
    entries.map_values(|p: (String, ScopedValue)| (p.0, p.1.value))
}

/// The error every token mismatch produces.
fn reference_mismatch() -> (e: Error)
    ensures
        e matches Error::JsExecError(d) && d@ == "different engines"@,
{
    exec_error("different engines".to_owned())
}

/// Whether every pair's value belongs to the scope with the given token.
fn pairs_same_origin(entries: &Vec<(String, ScopedValue)>, id: u64) -> (r: bool)
    ensures
        r == (forall|i: int| 0 <= i < entries@.len() ==> #[trigger] entries@[i].1.origin == id),
{
    let mut i: usize = 0;
    while i < entries.len()
        invariant
            0 <= i <= entries@.len(),
            forall|j: int| 0 <= j < i ==> #[trigger] entries@[j].1.origin == id,
        decreases entries@.len() - i,
    {
        if entries[i].1.origin != id {
            return false;
        }
        i = i + 1;
    }
    true
}

/// Whether every value belongs to the scope with the given token.
fn values_same_origin(args: &Vec<ScopedValue>, id: u64) -> (r: bool)
    ensures
        r == (forall|i: int| 0 <= i < args@.len() ==> #[trigger] args@[i].origin == id),
{
    let mut i: usize = 0;
    while i < args.len()
        invariant
            0 <= i <= args@.len(),
            forall|j: int| 0 <= j < i ==> #[trigger] args@[j].origin == id,
        decreases args@.len() - i,
    {
        if args[i].origin != id {
            return false;
        }
        i = i + 1;
    }
    true
}

impl Scope {
    /// A scope-bound boolean value.
    pub fn create_bool_value(&self, input: bool) -> (r: ScopedValue)
        ensures
            r.origin == self.engine_id && r.value == Value::Bool(input),
    {
        ScopedValue { origin: self.engine_id, value: Value::from_bool(input) }
    }

    /// A scope-bound integer value.
    pub fn create_int_value(&self, input: i32) -> (r: ScopedValue)
        ensures
            r.origin == self.engine_id && r.value == Value::Int(input),
    {
        ScopedValue { origin: self.engine_id, value: Value::from_int(input) }
    }

    /// A scope-bound float value, from the IEEE-754 bit pattern.
    pub fn create_float_value(&self, bits: u64) -> (r: ScopedValue)
        ensures
            r.origin == self.engine_id && r.value == Value::Float(bits),
    {
        ScopedValue { origin: self.engine_id, value: Value::from_float_bits(bits) }
    }

    /// A scope-bound text value.
    pub fn create_string_value(&self, input: String) -> (r: ScopedValue)
        ensures
            r.origin == self.engine_id && r.value == Value::Text(input),
    {
        ScopedValue { origin: self.engine_id, value: Value::from_string(input) }
    }

    /// A scope-bound object value from key-value pairs, the last pair for a
    /// key winning. Every given value must belong to this scope; one from
    /// another scope fails with a reference mismatch.
    pub fn create_object_value(&self, entries: Vec<(String, ScopedValue)>) -> (r: Result<
        ScopedValue,
        Error,
    >)
        ensures
            (exists|i: int|
                0 <= i < entries@.len() && entries@[i].1.origin != self.engine_id) ==> (r matches
                Err(e) && e matches Error::JsExecError(d) && d@ == "different engines"@),
            (forall|i: int| 0 <= i < entries@.len() ==> entries@[i].1.origin == self.engine_id)
                ==> (r matches Ok(sv) && sv.origin == self.engine_id && (sv.value matches
                Value::Object(es) && unique_keys(es@) && forall|k: Seq<char>|
                #[trigger] lookup(es@, k) == lookup(stripped(entries@), k))),
    {
        if !pairs_same_origin(&entries, self.engine_id) {
            return Err(reference_mismatch());
        }
        let ghost all = entries@;
        let mut rest = entries;
        let mut plain: Vec<(String, Value)> = Vec::new();
        while rest.len() > 0
            invariant
                plain@.len() + rest@.len() == all.len(),
                rest@ =~= all.skip(plain@.len() as int),
                forall|j: int| 0 <= j < plain@.len() ==> #[trigger] plain@[j] == (
                all[j].0,
                all[j].1.value,
                ),
            decreases rest.len(),
        {
            let ghost n = plain@.len() as int;
            let pair = rest.remove(0);
            proof {
                assert(pair == all[n]);
            }
            plain.push((pair.0, pair.1.value));
            proof {
                assert(rest@ =~= all.skip(n + 1));
            }
        }
        proof {
            assert(plain@ =~= stripped(all));
        }
        Ok(ScopedValue { origin: self.engine_id, value: Value::from_object(plain) })
    }
}

impl ScopedEngine {
    /// Create a scoped engine under the given token. The caller keeps the
    /// tokens of live engines distinct; the mismatch checks compare the
    /// tokens as given.
    pub fn new(id: u64) -> (r: Result<ScopedEngine, Error>)
        ensures
            r matches Ok(engine) ==> engine.spec_id() == id,
            r matches Err(e) ==> e matches Error::JsInitError(d) && d@.len() > 0,
    {
        match Engine::new() {
            Ok(inner) => Ok(ScopedEngine { inner, id }),
            Err(e) => Err(e),
        }
    }

    /// The scope bound to this engine's context: values created through it
    /// carry this engine's token.
    pub fn global_scope(&self) -> (s: Scope)
        ensures
            s.engine_id == self.spec_id(),
    {
        Scope { engine_id: self.id }
    }

    /// Evaluate source text; the result is bound to this engine's scope.
    pub fn eval(&self, code: &str) -> (r: Result<ScopedValue, Error>)
        ensures
            r matches Ok(v) ==> v.origin == self.spec_id(),
            r matches Err(e) ==> e matches Error::JsExecError(d) && d@.len() > 0,
    {
        match self.inner.eval(code) {
            Ok(v) => Ok(ScopedValue { origin: self.id, value: v }),
            Err(e) => Err(e),
        }
    }

    /// Call a global function with scope-bound arguments. An argument from
    /// a different scope fails with a reference mismatch before anything
    /// reaches the engine; with matching arguments the call behaves as the
    /// underlying engine's call and its result is bound to this scope.
    pub fn call_function(&self, func_name: &str, args: Vec<ScopedValue>) -> (r: Result<
        ScopedValue,
        Error,
    >)
        ensures
            (exists|i: int| 0 <= i < args@.len() && args@[i].origin != self.spec_id()) ==> (r matches Err(
                e,
            ) && e matches Error::JsExecError(d) && d@ == "different engines"@),
            (forall|i: int| 0 <= i < args@.len() ==> args@[i].origin == self.spec_id()) ==> {
                &&& r matches Ok(v) ==> v.origin == self.spec_id()
                &&& r matches Err(e) ==> e matches Error::JsExecError(d) && d@.len() > 0
            },
    {
        if !values_same_origin(&args, self.token()) {
            return Err(reference_mismatch());
        }
        let mut rest = args;
        let mut plain: Vec<Value> = Vec::new();
        while rest.len() > 0
            decreases rest.len(),
        {
            let sv = rest.remove(0);
            plain.push(sv.value);
        }
        match self.inner.call_function(func_name, plain) {
            Ok(v) => Ok(ScopedValue { origin: self.id, value: v }),
            Err(e) => Err(e),
        }
    }

    /// Narrow a scope-bound value to its text. A value from a different
    /// scope fails with a reference mismatch; a value of another shape
    /// fails with the conversion error of the narrowing itself.
    pub fn into_string(&self, v: ScopedValue) -> (r: Result<String, Error>)
        ensures
            v.origin != self.spec_id() ==> (r matches Err(e) && e matches Error::JsExecError(d) && d@
                == "different engines"@),
            v.origin == self.spec_id() ==> match crate::value::narrowed_text(v.value) {
                Some(s) => r == Ok::<String, Error>(s),
                None => r matches Err(e) && e matches Error::JsValueError(d) && d@
                    == "not a string"@,
            },
    {
        if v.origin != self.id {
            return Err(reference_mismatch());
        }
        v.value.into_string()
    }
}

} // verus!
