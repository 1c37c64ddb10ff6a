//! The engine adapters: evaluation, function calls, the scope discipline
//! and the memoized per-thread slot.

use katex::js_engine::quick_js::Engine;
use katex::js_engine::scoped::ScopedEngine;
use katex::{Error, Opts};

#[test]
fn eval_narrows_to_int() {
    // The engine reports whole numbers as integers: 1+1 is the int 2.
    let engine = Engine::new().unwrap();
    let v = engine.eval("1+1").unwrap();
    assert_eq!(v.into_int(), Ok(2));
}

#[test]
fn eval_float_comes_back_as_bits() {
    let engine = Engine::new().unwrap();
    let v = engine.eval("0.5").unwrap();
    let bits = v.into_float_bits().unwrap();
    assert_eq!(f64::from_bits(bits), 0.5f64);
}

#[test]
fn eval_string_preserves_content() {
    let engine = Engine::new().unwrap();
    let v = engine.eval("'ab' + 'cd'").unwrap();
    assert_eq!(v.into_string(), Ok("abcd".to_owned()));
}

#[test]
fn eval_invalid_source_is_exec_error() {
    let engine = Engine::new().unwrap();
    match engine.eval("1+(") {
        Err(Error::JsExecError(detail)) => assert!(!detail.is_empty()),
        other => panic!("expected an execution error, got {:?}", other.map(|_| ())),
    }
}

#[test]
fn call_function_missing_name_is_exec_error() {
    let engine = Engine::new().unwrap();
    match engine.call_function("missingFn", vec![]) {
        Err(Error::JsExecError(detail)) => {
            assert!(detail.contains("missingFn"));
            assert!(detail.contains("not found"));
        }
        other => panic!("expected an execution error, got {:?}", other.map(|_| ())),
    }
}

#[test]
fn call_function_wrong_arity_is_exec_error() {
    let cache_source = "function needsTwo(a, b) { if (arguments.length !== 2) { var e = new Error('needsTwo expects 2 arguments'); e.name = 'TypeError'; throw e; } return a + b; }";
    let engine = Engine::new().unwrap();
    engine.eval(cache_source).unwrap();
    match engine.call_function("needsTwo", vec![katex::value::Value::from_int(1)]) {
        Err(Error::JsExecError(detail)) => assert!(!detail.is_empty()),
        other => panic!("expected an execution error, got {:?}", other.map(|_| ())),
    }
    let ok = engine
        .call_function(
            "needsTwo",
            vec![
                katex::value::Value::from_int(1),
                katex::value::Value::from_int(2),
            ],
        )
        .unwrap();
    assert_eq!(ok.into_int(), Ok(3));
}

#[test]
fn cross_engine_value_is_rejected() {
    let engine_a = ScopedEngine::new(1).unwrap();
    let engine_b = ScopedEngine::new(2).unwrap();
    engine_b
        .eval("function echo(x) { return x; }")
        .map(|_| ())
        .unwrap();
    let scope_a = engine_a.global_scope();
    let foreign = scope_a.create_string_value("hello".to_owned());
    match engine_b.call_function("echo", vec![foreign]) {
        Err(Error::JsExecError(detail)) => assert_eq!(detail, "different engines"),
        other => panic!("expected a reference mismatch, got {:?}", other.map(|_| ())),
    }
}

#[test]
fn cross_engine_narrowing_is_rejected() {
    let engine_a = ScopedEngine::new(10).unwrap();
    let engine_b = ScopedEngine::new(20).unwrap();
    let foreign = engine_a.global_scope().create_string_value("hi".to_owned());
    match engine_b.into_string(foreign) {
        Err(Error::JsExecError(detail)) => assert_eq!(detail, "different engines"),
        other => panic!("expected a reference mismatch, got {:?}", other.map(|_| ())),
    }
}

#[test]
fn same_scope_values_flow_through() {
    let engine = ScopedEngine::new(7).unwrap();
    engine
        .eval("function greet(name) { return 'hi ' + name; }")
        .map(|_| ())
        .unwrap();
    let scope = engine.global_scope();
    let arg = scope.create_string_value("there".to_owned());
    let result = engine.call_function("greet", vec![arg]).unwrap();
    assert_eq!(engine.into_string(result), Ok("hi there".to_owned()));
}

#[test]
fn scoped_object_rejects_foreign_entry() {
    let engine_a = ScopedEngine::new(3).unwrap();
    let engine_b = ScopedEngine::new(4).unwrap();
    let scope_a = engine_a.global_scope();
    let scope_b = engine_b.global_scope();
    let foreign = scope_b.create_int_value(1);
    match scope_a.create_object_value(vec![("n".to_owned(), foreign)]) {
        Err(Error::JsExecError(detail)) => assert_eq!(detail, "different engines"),
        other => panic!("expected a reference mismatch, got {:?}", other.map(|_| ())),
    }
    let own = scope_a.create_int_value(1);
    assert!(scope_a
        .create_object_value(vec![("n".to_owned(), own)])
        .is_ok());
}

#[test]
fn scoped_constructors_carry_their_data() {
    let engine = ScopedEngine::new(5).unwrap();
    engine
        .eval("function typeOf(x) { return typeof x; }")
        .map(|_| ())
        .unwrap();
    let scope = engine.global_scope();
    let b = scope.create_bool_value(true);
    let f = scope.create_float_value(2.5f64.to_bits());
    let typed = engine.call_function("typeOf", vec![b]).unwrap();
    assert_eq!(engine.into_string(typed), Ok("boolean".to_owned()));
    let typed = engine.call_function("typeOf", vec![f]).unwrap();
    // A float travels in degraded form; the raw engine sees the marker object.
    assert_eq!(engine.into_string(typed), Ok("object".to_owned()));
}

#[test]
fn cache_failure_is_memoized_with_identical_content() {
    // An invalid initialization script fails once; every later call on the
    // slot observes an error with the same content and no retry happens.
    let mut cache = katex::EngineCache::new("1+(".to_owned());
    assert_eq!(cache.attempts(), 0);
    let opts = Opts::default();
    let first = cache.render("a", &opts);
    let second = cache.render("a", &opts);
    let third = cache.render("b", &opts);
    assert!(first.is_err());
    assert_eq!(first, second);
    assert_eq!(first, third);
    assert_eq!(cache.attempts(), 1);
}

#[test]
fn cache_initializes_once_on_success() {
    let mut cache = katex::engine_cache();
    assert_eq!(cache.attempts(), 0);
    let opts = Opts::default();
    let first = cache.render("a = b + c", &opts).unwrap();
    let second = cache.render("a = b + c", &opts).unwrap();
    assert_eq!(first, second);
    assert!(first.contains(r#"span class="katex""#));
    assert_eq!(cache.attempts(), 1);
}

#[test]
fn float_options_reach_the_payload_as_numbers() {
    // A float option crosses the boundary in degraded bit form and the
    // payload restores it: a probe function sees a plain JS number.
    let engine = Engine::new().unwrap();
    engine.eval(katex_probe_source()).unwrap();
    let opts_value = Opts::builder()
        .min_rule_thickness(0.18f64.to_bits())
        .build()
        .unwrap()
        .to_js_value();
    let v = engine.call_function("probeThickness", vec![opts_value]).unwrap();
    assert_eq!(v.into_string(), Ok("number:0.18".to_owned()));
}

fn katex_probe_source() -> &'static str {
    // Defines the same bit-revival helper the payload uses, plus a probe
    // reporting the type and value it sees for the thickness option.
    "var __f64FromBits = function (s) { var b = BigInt(s); var hi = Number(b >> 32n); \
     var lo = Number(b & 4294967295n); var buf = new ArrayBuffer(8); var dv = new DataView(buf); \
     dv.setUint32(0, hi); dv.setUint32(4, lo); return dv.getFloat64(0); };\n\
     function probeThickness(opts) { var m = opts.minRuleThickness; \
     if (m !== null && typeof m === 'object' && typeof m.__f64_bits === 'string') \
     { var n = __f64FromBits(m.__f64_bits); return typeof n + ':' + n; } \
     return typeof m + ':' + m; }"
}
