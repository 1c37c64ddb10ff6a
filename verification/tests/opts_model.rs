//! The options-to-value transform: every set option becomes exactly one
//! entry under its documented key, unset options are omitted.

use katex::value::Value;
use katex::{Opts, OutputType};

fn entries_of(v: Value) -> Vec<(String, Value)> {
    match v {
        Value::Object(entries) => entries,
        _ => unreachable!(),
    }
}

fn get<'a>(entries: &'a [(String, Value)], key: &str) -> Option<&'a Value> {
    entries.iter().find(|e| e.0 == key).map(|e| &e.1)
}

#[test]
fn default_opts_emit_no_entries() {
    let entries = entries_of(Opts::default().to_js_value());
    assert!(entries.is_empty());
}

#[test]
fn set_options_emit_their_entries() {
    let opts = Opts::builder()
        .display_mode(true)
        .leqno(false)
        .throw_on_error(false)
        .error_color("#ff8800")
        .trust(true)
        .build()
        .unwrap();
    let entries = entries_of(opts.to_js_value());
    assert_eq!(entries.len(), 5);
    assert!(matches!(get(&entries, "displayMode"), Some(Value::Bool(true))));
    assert!(matches!(get(&entries, "leqno"), Some(Value::Bool(false))));
    assert!(matches!(
        get(&entries, "throwOnError"),
        Some(Value::Bool(false))
    ));
    assert!(matches!(get(&entries, "errorColor"), Some(Value::Text(s)) if s == "#ff8800"));
    assert!(matches!(get(&entries, "trust"), Some(Value::Bool(true))));
    assert!(get(&entries, "fleqn").is_none());
    assert!(get(&entries, "output").is_none());
    assert!(get(&entries, "macros").is_none());
}

#[test]
fn output_type_names() {
    for (t, name) in [
        (OutputType::Html, "html"),
        (OutputType::Mathml, "mathml"),
        (OutputType::HtmlAndMathml, "htmlAndMathml"),
    ] {
        let opts = Opts::builder().output_type(t).build().unwrap();
        let entries = entries_of(opts.to_js_value());
        assert!(matches!(get(&entries, "output"), Some(Value::Text(s)) if s == name));
    }
}

#[test]
fn unlimited_expansion_becomes_int_max() {
    let opts = Opts::builder().max_expand(None).build().unwrap();
    let entries = entries_of(opts.to_js_value());
    assert!(matches!(
        get(&entries, "maxExpand"),
        Some(Value::Int(2147483647))
    ));

    let opts = Opts::builder().max_expand(Some(64)).build().unwrap();
    let entries = entries_of(opts.to_js_value());
    assert!(matches!(get(&entries, "maxExpand"), Some(Value::Int(64))));
}

#[test]
fn unbounded_max_size_is_omitted() {
    let opts = Opts::builder().max_size(None).build().unwrap();
    let entries = entries_of(opts.to_js_value());
    assert!(get(&entries, "maxSize").is_none());

    let bits = 12.5f64.to_bits();
    let opts = Opts::builder().max_size(Some(bits)).build().unwrap();
    let entries = entries_of(opts.to_js_value());
    assert!(matches!(get(&entries, "maxSize"), Some(Value::Float(b)) if *b == bits));
}

#[test]
fn float_options_carry_their_bits() {
    let bits = 0.18f64.to_bits();
    let opts = Opts::builder().min_rule_thickness(bits).build().unwrap();
    let entries = entries_of(opts.to_js_value());
    assert!(matches!(
        get(&entries, "minRuleThickness"),
        Some(Value::Float(b)) if *b == bits
    ));
}

#[test]
fn macros_become_a_nested_object_last_definition_wins() {
    let opts = Opts::builder()
        .add_macro("\\RR".to_owned(), "\\mathbb{R}".to_owned())
        .add_macro("\\NN".to_owned(), "\\mathbb{N}".to_owned())
        .add_macro("\\RR".to_owned(), "\\mathsf{R}".to_owned())
        .build()
        .unwrap();
    let entries = entries_of(opts.to_js_value());
    let inner = match get(&entries, "macros") {
        Some(Value::Object(inner)) => inner,
        _ => unreachable!(),
    };
    assert_eq!(inner.len(), 2);
    assert!(matches!(
        inner.iter().find(|e| e.0 == "\\RR").map(|e| &e.1),
        Some(Value::Text(s)) if s == "\\mathsf{R}"
    ));
    assert!(matches!(
        inner.iter().find(|e| e.0 == "\\NN").map(|e| &e.1),
        Some(Value::Text(s)) if s == "\\mathbb{N}"
    ));
}

#[test]
fn setters_mirror_the_builder() {
    let mut opts = Opts::default();
    opts.set_display_mode(true);
    opts.set_output_type(OutputType::Html);
    opts.set_leqno(true);
    opts.set_fleqn(true);
    opts.set_throw_on_error(false);
    opts.set_error_color("#123456".to_owned());
    opts.add_macro("\\ZZ".to_owned(), "\\mathbb{Z}".to_owned());
    opts.set_min_rule_thickness(1.0f64.to_bits());
    opts.set_max_size(Some(2.0f64.to_bits()));
    opts.set_max_expand(Some(9));
    opts.set_trust(false);
    let entries = entries_of(opts.to_js_value());
    assert_eq!(entries.len(), 11);
    assert!(matches!(get(&entries, "displayMode"), Some(Value::Bool(true))));
    assert!(matches!(get(&entries, "output"), Some(Value::Text(s)) if s == "html"));
    assert!(matches!(get(&entries, "trust"), Some(Value::Bool(false))));
}
