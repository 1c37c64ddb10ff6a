//! Engine adapter backed by the QuickJS interpreter.
//!
//! Values returned by the interpreter are converted to owned host
//! [`Value`] data immediately, so nothing this adapter hands out borrows
//! engine storage. The interpreter reports whole numbers that fit in 32
//! bits as integers, so `eval("1+1")` narrows to the integer 2 rather than
//! a float.
//!
//! Floats cross the boundary in degraded form (see
//! [`crate::value::degrade_floats`]), and the payload script restores them
//! before use: the binding's native number type cannot be carried through
//! the verified layer.

use vstd::prelude::*;

use crate::error::Error;
use crate::value::Value;
use crate::value::degrade_floats;
use crate::value::float_free;

verus! {

#[verifier::external_type_specification]
#[verifier::external_body]
pub struct ExContext(quick_js::Context);

#[verifier::external_type_specification]
#[verifier::external_body]
pub struct ExJsValue(quick_js::JsValue);

/// Relies on quick_js::Context::new: it builds a fresh interpreter context;
/// on failure the ContextError's display text, which is never empty, is
/// carried as the error detail.
#[verifier::external_body]
fn context_new() -> (r: Result<quick_js::Context, Error>)
    ensures
        r matches Err(e) ==> e matches Error::JsInitError(d) && d@.len() > 0,
{
    quick_js::Context::new().map_err(|e| crate::error::init_error(format!("{}", e)))
}

/// Relies on quick_js::Context::eval: it runs the source in the global
/// scope and returns the final expression's value; every failure is an
/// ExecutionError whose display text is never empty.
#[verifier::external_body]
fn context_eval(ctx: &quick_js::Context, code: &str) -> (r: Result<quick_js::JsValue, Error>)
    ensures
        r matches Err(e) ==> e matches Error::JsExecError(d) && d@.len() > 0,
{
    ctx.eval(code).map_err(|e| crate::error::exec_error(format!("{}", e)))
}

/// Relies on quick_js::Context::call_function: it looks the name up among
/// the globals and calls it with the given arguments; a missing or
/// uncallable name, and every other failure, is an ExecutionError whose
/// display text is never empty.
#[verifier::external_body]
fn context_call(ctx: &quick_js::Context, name: &str, args: Vec<quick_js::JsValue>) -> (r: Result<
    quick_js::JsValue,
    Error,
>)
    ensures
        r matches Err(e) ==> e matches Error::JsExecError(d) && d@.len() > 0,
{
    ctx.call_function(name, args).map_err(|e| crate::error::exec_error(format!("{}", e)))
}

/// Relies on matching quick_js::JsValue's variants, one arm each, moving
/// fields: a float becomes its bit pattern, an engine Undefined is
/// reported as the null value, and arrays and objects convert element by
/// element.
#[verifier::external_body]
fn decode_value(v: quick_js::JsValue) -> Value {
    match v {
        quick_js::JsValue::Undefined => Value::Null,
        quick_js::JsValue::Null => Value::Null,
        quick_js::JsValue::Bool(b) => Value::Bool(b),
        quick_js::JsValue::Int(i) => Value::Int(i),
        quick_js::JsValue::Float(x) => Value::Float(x.to_bits()),
        quick_js::JsValue::String(s) => Value::Text(s),
        quick_js::JsValue::Array(items) => Value::Array(items.into_iter().map(decode_value).collect()),
        quick_js::JsValue::Object(es) => Value::Object(es.into_iter().map(|(k, x)| (k, decode_value(x))).collect()),
        _ => Value::Null,
    }
}

/// Relies on quick_js::JsValue's constructors, one per variant, moving
/// fields. A float node never reaches this conversion: callers degrade
/// floats first, so the float arm is unreachable.
#[verifier::external_body]
fn encode_value(v: Value) -> quick_js::JsValue
    requires
        float_free(v),
{
    match v {
        Value::Null => quick_js::JsValue::Null,
        Value::Bool(b) => quick_js::JsValue::Bool(b),
        Value::Int(i) => quick_js::JsValue::Int(i),
        Value::Float(_) => quick_js::JsValue::Null,
        Value::Text(s) => quick_js::JsValue::String(s),
        Value::Array(items) => quick_js::JsValue::Array(items.into_iter().map(encode_value).collect()),
        Value::Object(es) => quick_js::JsValue::Object(es.into_iter().map(|(k, x)| (k, encode_value(x))).collect()),
    }
}

/// One QuickJS engine instance: an interpreter context with its global
/// bindings. Create it once per logical session and use it from one thread.
pub struct Engine {
    ctx: quick_js::Context,
}

impl Engine {
    /// Create an engine with a fresh execution context. A failure to bring
    /// the native runtime up is an initialization error carrying the native
    /// detail text.
    pub fn new() -> (r: Result<Engine, Error>)
        ensures
            r matches Err(e) ==> e matches Error::JsInitError(d) && d@.len() > 0,
    {
        match context_new() {
            Ok(ctx) => Ok(Engine { ctx }),
            Err(e) => Err(e),
        }
    }

    /// Evaluate source text in the engine's global scope and return the
    /// final expression's value as owned host data. Malformed source is
    /// reported as an execution error with the native detail text; it never
    /// panics.
    pub fn eval(&self, code: &str) -> (r: Result<Value, Error>)
        ensures
            r matches Err(e) ==> e matches Error::JsExecError(d) && d@.len() > 0,
    {
        match context_eval(&self.ctx, code) {
            Ok(v) => Ok(decode_value(v)),
            Err(e) => Err(e),
        }
    }

    /// Look up a global callable by name and invoke it with the given
    /// positional arguments. A missing callable, and any exception the call
    /// raises, is an execution error with the native detail text.
    pub fn call_function(&self, func_name: &str, args: Vec<Value>) -> (r: Result<Value, Error>)
        ensures
            r matches Err(e) ==> e matches Error::JsExecError(d) && d@.len() > 0,
    {
        let mut encoded: Vec<quick_js::JsValue> = Vec::new();
        let mut i: usize = 0;
        while i < args.len()
            invariant
                0 <= i <= args@.len(),
            decreases args@.len() - i,
        {
            let degraded = degrade_floats(&args[i]);
            encoded.push(encode_value(degraded));
            i = i + 1;
        }
        match context_call(&self.ctx, func_name, encoded) {
            Ok(v) => Ok(decode_value(v)),
            Err(e) => Err(e),
        }
    }
}

} // verus!
