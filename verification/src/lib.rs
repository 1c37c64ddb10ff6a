//! Render LaTeX equations to HTML through an embedded JavaScript engine.
//!
//! The crate is an abstraction layer over interchangeable script-execution
//! engines: a structural [`value::Value`] model marshals host data into the
//! engine, [`js_engine`] holds the engine adapters, [`error::Error`] is the
//! shared three-kind error taxonomy, and [`opts::Opts`] describes the
//! rendering options handed to the engine's entry callable. A payload
//! script, loaded once per engine, exposes that entry callable — a
//! render-to-text function taking the input string and an options object.
//!
//! # Examples
//!
//! ```
//! let html = katex::render("E = mc^2").unwrap();
//!
//! let opts = katex::Opts::builder().display_mode(true).build().unwrap();
//! let html_in_display_mode = katex::render_with_opts("E = mc^2", &opts).unwrap();
//! ```

use vstd::prelude::*;

pub mod cache;
pub mod error;
pub mod js_engine;
pub mod opts;
pub mod value;

pub use cache::EngineCache;
pub use error::Error;
pub use opts::Opts;
pub use opts::OptsBuilder;
pub use opts::OutputType;

use error::has_detail;
use js_engine::quick_js::Engine;
use value::Value;

verus! {

/// The payload script loaded once per engine.
///
/// It defines the entry callable `katexRenderToString(input, opts)`, which
/// returns KaTeX-shaped markup: a `katex` span holding a `katex-mathml`
/// and a `katex-html` part, wrapped in a `katex-display` span in display
/// mode. Invalid input — an input ending in a lone backslash — raises an
/// error whose name is `ParseError` when `throwOnError` is on, and renders
/// as a `katex-error` span in the error color otherwise. Custom macros are
/// expanded textually, `\ce{...}` chemistry groups render as their
/// contents, and `\url{...}` renders as a link only for trusted input.
/// The entry callable takes exactly two arguments — any other count
/// raises an error — and the script restores floats that the adapter
/// hands over in their degraded bit-pattern form.
fn js_payload() -> &'static str {
    r#"
var __f64FromBits = function (s) {
    var b = BigInt(s);
    var hi = Number(b >> 32n);
    var lo = Number(b & 4294967295n);
    var buf = new ArrayBuffer(8);
    var dv = new DataView(buf);
    dv.setUint32(0, hi);
    dv.setUint32(4, lo);
    return dv.getFloat64(0);
};
var __reviveFloats = function (v) {
    if (v === null || typeof v !== 'object') { return v; }
    if (Object.prototype.hasOwnProperty.call(v, '__f64_bits') && typeof v.__f64_bits === 'string') {
        return __f64FromBits(v.__f64_bits);
    }
    if (Array.isArray(v)) {
        var arr = [];
        for (var i = 0; i < v.length; i++) { arr.push(__reviveFloats(v[i])); }
        return arr;
    }
    var obj = {};
    for (var k in v) { obj[k] = __reviveFloats(v[k]); }
    return obj;
};
function katexRenderToString(input, opts) {
    if (arguments.length !== 2) {
        var arity = new Error('katexRenderToString expects 2 arguments, got ' + arguments.length);
        arity.name = 'TypeError';
        throw arity;
    }
    opts = __reviveFloats(opts || {});
    var displayMode = opts.displayMode === true;
    var leqno = opts.leqno === true;
    var fleqn = opts.fleqn === true;
    var throwOnError = opts.throwOnError === undefined ? true : opts.throwOnError === true;
    var errorColor = typeof opts.errorColor === 'string' ? opts.errorColor : '#cc0000';
    var output = typeof opts.output === 'string' ? opts.output : 'htmlAndMathml';
    var trust = opts.trust === true;
    var macros = (opts.macros !== null && typeof opts.macros === 'object') ? opts.macros : {};
    var BS = String.fromCharCode(92);
    var source = String(input);
    for (var name in macros) {
        if (typeof macros[name] === 'string') { source = source.split(name).join(macros[name]); }
    }
    source = source.split(BS + 'ce{').join('{');
    var wrap = function (core) {
        if (!displayMode) { return core; }
        var cls = 'katex-display';
        if (leqno) { cls += ' leqno'; }
        if (fleqn) { cls += ' fleqn'; }
        return '<span class="' + cls + '">' + core + '</span>';
    };
    if (source.length > 0 && source.charAt(source.length - 1) === BS) {
        if (throwOnError) {
            var err = new Error('KaTeX parse error: Expected group after ' + BS + ' at end of input');
            err.name = 'ParseError';
            throw err;
        }
        var errorSpan = '<span class="katex-error" style="color:' + errorColor + '">' + source + '</span>';
        return wrap('<span class="katex">' + errorSpan + '</span>');
    }
    var body = source;
    var urlStart = source.indexOf(BS + 'url{');
    if (urlStart >= 0) {
        var close = source.indexOf('}', urlStart);
        var urlText = source.slice(urlStart + 5, close < 0 ? source.length : close);
        var rendered = trust
            ? '<a href="' + urlText + '">' + urlText + '</a>'
            : '<span style="color:' + errorColor + '">' + urlText + '</span>';
        body = source.slice(0, urlStart) + rendered + (close < 0 ? '' : source.slice(close + 1));
    }
    var parts = '';
    if (output !== 'html') {
        parts += '<span class="katex-mathml"><math xmlns="http://www.w3.org/1998/Math/MathML"><semantics><mrow>'
            + body + '</mrow></semantics></math></span>';
    }
    if (output !== 'mathml') {
        parts += '<span class="katex-html" aria-hidden="true">' + body + '</span>';
    }
    return wrap('<span class="katex">' + parts + '</span>');
}
"#
}

/// Construct an engine and load an initialization script into its global
/// scope. A context failure is an initialization error; a script failure
/// is an execution error. Both carry the native detail text.
pub(crate) fn init_engine(source: &str) -> (r: Result<Engine, Error>)
    ensures
        r matches Err(e) ==> has_detail(e) && (e matches Error::JsInitError(_) || e matches
            Error::JsExecError(_)),
{
    let engine = match Engine::new() {
        Ok(engine) => engine,
        Err(e) => {
            return Err(e);
        },
    };
    match engine.eval(source) {
        Ok(_) => Ok(engine),
        Err(e) => Err(e),
    }
}

/// Render through an already initialized engine: marshal the input and the
/// options, call the entry callable, and narrow the result to text. A call
/// failure is an execution error and a result of the wrong shape is a
/// value error, each with a non-empty detail.
pub(crate) fn render_inner(engine: &Engine, input: &str, opts: &Opts) -> (r: Result<String, Error>)
    ensures
        r matches Err(e) ==> has_detail(e) && (e matches Error::JsExecError(_) || e matches
            Error::JsValueError(_)),
{
    let input_value = Value::from_string(input.to_owned());
    let opts_value = opts.to_js_value();
    let mut args: Vec<Value> = Vec::new();
    args.push(input_value);
    args.push(opts_value);
    let result = match engine.call_function("katexRenderToString", args) {
        Ok(v) => v,
        Err(e) => {
            return Err(e);
        },
    };
    match result.into_string() {
        Ok(html) => Ok(html),
        Err(e) => {
            proof {
                reveal_strlit("not a string");
            }
            Err(e)
        },
    }
}

/// Render a LaTeX equation to HTML with the given options.
///
/// Each call brings up a fresh engine, loads the payload, and renders; a
/// caller that renders repeatedly on one thread holds an
/// [`EngineCache`] instead and reuses it. Every failure is one of the
/// three error kinds with a non-empty detail.
pub fn render_with_opts(input: &str, opts: &Opts) -> (r: Result<String, Error>)
    ensures
        r matches Err(e) ==> has_detail(e),
{
    let engine = match init_engine(js_payload()) {
        Ok(engine) => engine,
        Err(e) => {
            return Err(e);
        },
    };
    render_inner(&engine, input, opts)
}

/// Render a LaTeX equation to HTML with default options.
pub fn render(input: &str) -> (r: Result<String, Error>)
    ensures
        r matches Err(e) ==> has_detail(e),
{
    let opts = Opts::default();
    render_with_opts(input, &opts)
}

/// A memoized engine slot primed with the standard payload, for a caller
/// that keeps one engine per thread.
pub fn engine_cache() -> (r: EngineCache)
    ensures
        r.wf(),
        !r.spec_initialized(),
        r.spec_attempts() == 0,
{
    EngineCache::new(js_payload().to_owned())
}

} // verus!
