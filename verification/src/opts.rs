//! Rendering options and their translation into the engine's options value.
//!
//! [`Opts`] is plain host data; [`Opts::to_js_value`] is the pure,
//! deterministic transform that turns it into the structural object handed
//! to the engine's entry callable. Unset options are omitted from the
//! object, so the payload's own defaults apply; they are never emitted as
//! null.

use vstd::prelude::*;

use crate::value::Value;
use crate::value::lookup;
use crate::value::unique_keys;
use crate::error::Error;

verus! {

/// Output type for the rendered markup.
#[derive(Copy, Clone, Debug, Eq, PartialEq)]
pub enum OutputType {
    /// Output HTML only.
    Html,
    /// Output MathML only.
    Mathml,
    /// Output HTML for visual rendering and MathML for accessibility.
    HtmlAndMathml,
}

/// The name under which an output type is reported to the engine.
pub open spec fn output_name(t: OutputType) -> Seq<char> {
    match t {
        OutputType::Html => "html"@,
        OutputType::Mathml => "mathml"@,
        OutputType::HtmlAndMathml => "htmlAndMathml"@,
    }
}

/// An optional boolean option, as the object entry it turns into.
pub open spec fn opt_bool_value(o: Option<bool>) -> Option<Value> {
    match o {
        Some(b) => Some(Value::Bool(b)),
        None => None,
    }
}

/// Macro definitions, as the entries of the object they turn into.
pub open spec fn text_entries(ms: Seq<(String, String)>) -> Seq<(String, Value)> {
    ms.map_values(|p: (String, String)| (p.0, Value::Text(p.1)))
}

/// Whether `k` is one of the option keys the transform may emit.
pub open spec fn is_option_key(k: Seq<char>) -> bool {
    ||| k == "displayMode"@
    ||| k == "output"@
    ||| k == "leqno"@
    ||| k == "fleqn"@
    ||| k == "throwOnError"@
    ||| k == "errorColor"@
    ||| k == "macros"@
    ||| k == "minRuleThickness"@
    ||| k == "maxSize"@
    ||| k == "maxExpand"@
    ||| k == "trust"@
}

/// Options to be passed to the renderer.
///
/// An unset option is omitted from the options object, so the payload's own
/// default applies. The two size options are carried as IEEE-754 bit
/// patterns of the intended double, as the rest of the crate carries floats.
#[non_exhaustive]
#[derive(Debug, PartialEq)]
pub struct Opts {
    /// Whether to render the math in display mode.
    pub display_mode: Option<bool>,
    /// Output type for the rendered markup.
    pub output_type: Option<OutputType>,
    /// Whether tags are rendered on the left instead of the right.
    pub leqno: Option<bool>,
    /// Whether display math is flushed left.
    pub fleqn: Option<bool>,
    /// Whether invalid input raises an execution error instead of being
    /// rendered as error-colored text.
    pub throw_on_error: Option<bool>,
    /// Color used for invalid input, as a CSS color string.
    pub error_color: Option<String>,
    /// Custom macro definitions, name to replacement. A name given twice
    /// counts as the later definition.
    pub macros: Vec<(String, String)>,
    /// Minimum rule thickness, in ems, as IEEE-754 double bits.
    pub min_rule_thickness: Option<u64>,
    /// Max size for user-specified sizes, as IEEE-754 double bits; an inner
    /// `None` leaves sizes unbounded.
    pub max_size: Option<Option<u64>>,
    /// Limit on macro expansions; an inner `None` means no practical limit.
    pub max_expand: Option<Option<i32>>,
    /// Whether to trust the input.
    pub trust: Option<bool>,
}

impl Default for Opts {
    /// Options with every option unset.
    fn default() -> (r: Opts)
        ensures
            r.display_mode is None,
            r.output_type is None,
            r.leqno is None,
            r.fleqn is None,
            r.throw_on_error is None,
            r.error_color is None,
            r.macros@.len() == 0,
            r.min_rule_thickness is None,
            r.max_size is None,
            r.max_expand is None,
            r.trust is None,
    {
        Opts {
            display_mode: None,
            output_type: None,
            leqno: None,
            fleqn: None,
            throw_on_error: None,
            error_color: None,
            macros: Vec::new(),
            min_rule_thickness: None,
            max_size: None,
            max_expand: None,
            trust: None,
        }
    }
}

impl Opts {
    /// Return an [`OptsBuilder`].
    pub fn builder() -> (r: OptsBuilder)
        ensures
            r.opts.display_mode is None,
            r.opts.output_type is None,
            r.opts.leqno is None,
            r.opts.fleqn is None,
            r.opts.throw_on_error is None,
            r.opts.error_color is None,
            r.opts.macros@.len() == 0,
            r.opts.min_rule_thickness is None,
            r.opts.max_size is None,
            r.opts.max_expand is None,
            r.opts.trust is None,
    {
        OptsBuilder { opts: Opts::default() }
    }

    /// Set whether to render the math in display mode.
    pub fn set_display_mode(&mut self, flag: bool)
        ensures
            *final(self) == (Opts { display_mode: Some(flag), ..*old(self) }),
    {
        self.display_mode = Some(flag);
    }

    /// Set the output type.
    pub fn set_output_type(&mut self, output_type: OutputType)
        ensures
            *final(self) == (Opts { output_type: Some(output_type), ..*old(self) }),
    {
        self.output_type = Some(output_type);
    }

    /// Set whether tags are rendered on the left instead of the right.
    pub fn set_leqno(&mut self, flag: bool)
        ensures
            *final(self) == (Opts { leqno: Some(flag), ..*old(self) }),
    {
        self.leqno = Some(flag);
    }

    /// Set whether display math is flushed left.
    pub fn set_fleqn(&mut self, flag: bool)
        ensures
            *final(self) == (Opts { fleqn: Some(flag), ..*old(self) }),
    {
        self.fleqn = Some(flag);
    }

    /// Set whether invalid input raises an execution error.
    pub fn set_throw_on_error(&mut self, flag: bool)
        ensures
            *final(self) == (Opts { throw_on_error: Some(flag), ..*old(self) }),
    {
        self.throw_on_error = Some(flag);
    }

    /// Set the color used for invalid input.
    pub fn set_error_color(&mut self, color: String)
        ensures
            *final(self) == (Opts { error_color: Some(color), ..*old(self) }),
    {
        self.error_color = Some(color);
    }

    /// Add a custom macro definition.
    pub fn add_macro(&mut self, entry_name: String, entry_data: String)
        ensures
            *final(self) == (Opts {
                macros: final(self).macros,
                ..*old(self)
            }) && final(self).macros@ == old(self).macros@.push((entry_name, entry_data)),
    {
        self.macros.push((entry_name, entry_data));
    }

    /// Set the minimum rule thickness, in ems, given as the bit pattern of
    /// the intended IEEE-754 double.
    pub fn set_min_rule_thickness(&mut self, bits: u64)
        ensures
            *final(self) == (Opts { min_rule_thickness: Some(bits), ..*old(self) }),
    {
        self.min_rule_thickness = Some(bits);
    }

    /// Set the max size for user-specified sizes, given as the bit pattern
    /// of the intended IEEE-754 double; `None` leaves sizes unbounded.
    pub fn set_max_size(&mut self, bits: Option<u64>)
        ensures
            *final(self) == (Opts { max_size: Some(bits), ..*old(self) }),
    {
        self.max_size = Some(bits);
    }

    /// Set the limit on macro expansions; `None` lifts the limit as far as
    /// the engine allows.
    pub fn set_max_expand(&mut self, limit: Option<i32>)
        ensures
            *final(self) == (Opts { max_expand: Some(limit), ..*old(self) }),
    {
        self.max_expand = Some(limit);
    }

    /// Set whether to trust the input.
    pub fn set_trust(&mut self, flag: bool)
        ensures
            *final(self) == (Opts { trust: Some(flag), ..*old(self) }),
    {
        self.trust = Some(flag);
    }

    /// The options object handed to the engine's entry callable.
    ///
    /// The transform is pure and deterministic: every set option becomes
    /// exactly one entry under its documented key, every unset option is
    /// omitted, and no other key is emitted. Macro definitions become a
    /// nested object whose keys are unique, a name given twice counting as
    /// its last definition.
    #[verifier::rlimit(100)]
    #[verifier::spinoff_prover]
    pub fn to_js_value(&self) -> (r: Value)
        ensures
            r matches Value::Object(es) && unique_keys(es@) && {
                &&& lookup(es@, "displayMode"@) == opt_bool_value(self.display_mode)
                &&& match self.output_type {
                    Some(t) => lookup(es@, "output"@) matches Some(v) && v matches Value::Text(s)
                        && s@ == output_name(t),
                    None => lookup(es@, "output"@) is None,
                }
                &&& lookup(es@, "leqno"@) == opt_bool_value(self.leqno)
                &&& lookup(es@, "fleqn"@) == opt_bool_value(self.fleqn)
                &&& lookup(es@, "throwOnError"@) == opt_bool_value(self.throw_on_error)
                &&& match self.error_color {
                    Some(c) => lookup(es@, "errorColor"@) matches Some(v) && v matches Value::Text(
                        s,
                    ) && s@ == c@,
                    None => lookup(es@, "errorColor"@) is None,
                }
                &&& if self.macros@.len() == 0 {
                    lookup(es@, "macros"@) is None
                } else {
                    lookup(es@, "macros"@) matches Some(v) && v matches Value::Object(inner)
                        && unique_keys(inner@) && forall|k: Seq<char>|
                        #[trigger] lookup(inner@, k) == lookup(text_entries(self.macros@), k)
                }
                &&& lookup(es@, "minRuleThickness"@) == (match self.min_rule_thickness {
                    Some(bits) => Some(Value::Float(bits)),
                    None => None,
                })
                &&& lookup(es@, "maxSize"@) == (match self.max_size {
                    Some(Some(bits)) => Some(Value::Float(bits)),
                    _ => None,
                })
                &&& lookup(es@, "maxExpand"@) == (match self.max_expand {
                    Some(Some(n)) => Some(Value::Int(n)),
                    Some(None) => Some(Value::Int(i32::MAX)),
                    None => None,
                })
                &&& lookup(es@, "trust"@) == opt_bool_value(self.trust)
                &&& forall|k: Seq<char>| !is_option_key(k) ==> #[trigger] lookup(es@, k) is None
            },
    {
        let mut es: Vec<(String, Value)> = Vec::new();
        if let Some(b) = self.display_mode {
            push_entry(&mut es, "displayMode".to_owned(), Value::Bool(b));
        }
        if let Some(t) = self.output_type {
            push_entry(&mut es, "output".to_owned(), Value::Text(output_type_text(t)));
        }
        if let Some(b) = self.leqno {
            push_entry(&mut es, "leqno".to_owned(), Value::Bool(b));
        }
        if let Some(b) = self.fleqn {
            push_entry(&mut es, "fleqn".to_owned(), Value::Bool(b));
        }
        if let Some(b) = self.throw_on_error {
            push_entry(&mut es, "throwOnError".to_owned(), Value::Bool(b));
        }
        if let Some(c) = &self.error_color {
            push_entry(&mut es, "errorColor".to_owned(), Value::Text(c.clone()));
        }
        if self.macros.len() > 0 {
            let mut macro_entries: Vec<(String, Value)> = Vec::new();
            let mut i: usize = 0;
            while i < self.macros.len()
                invariant
                    0 <= i <= self.macros@.len(),
                    macro_entries@.len() == i,
                    forall|j: int|
                        0 <= j < i ==> macro_entries@[j] == (
                        self.macros@[j].0,
                        Value::Text(self.macros@[j].1),
                        ),
                decreases self.macros@.len() - i,
            {
                let name = self.macros[i].0.clone();
                let data = self.macros[i].1.clone();
                macro_entries.push((name, Value::Text(data)));
                i = i + 1;
            }
            proof {
                assert(macro_entries@ =~= text_entries(self.macros@));
            }
            push_entry(&mut es, "macros".to_owned(), Value::from_object(macro_entries));
        }
        if let Some(bits) = self.min_rule_thickness {
            push_entry(&mut es, "minRuleThickness".to_owned(), Value::Float(bits));
        }
        if let Some(max_size) = self.max_size {
            if let Some(bits) = max_size {
                push_entry(&mut es, "maxSize".to_owned(), Value::Float(bits));
            }
        }
        if let Some(max_expand) = self.max_expand {
            match max_expand {
                Some(n) => push_entry(&mut es, "maxExpand".to_owned(), Value::Int(n)),
                None => push_entry(&mut es, "maxExpand".to_owned(), Value::Int(i32::MAX)),
            }
        }
        if let Some(b) = self.trust {
            push_entry(&mut es, "trust".to_owned(), Value::Bool(b));
        }
        proof {
            lemma_option_keys_distinct();
        }
        Value::from_object(es)
    }
}

/// The option keys are pairwise distinct: each pair differs in length or
/// in its first character.
proof fn lemma_option_keys_distinct()
    ensures
        "displayMode"@.len() == 11,
        "output"@.len() == 6 && "output"@[0] == 'o',
        "leqno"@.len() == 5 && "leqno"@[0] == 'l',
        "fleqn"@.len() == 5 && "fleqn"@[0] == 'f',
        "throwOnError"@.len() == 12,
        "errorColor"@.len() == 10,
        "macros"@.len() == 6 && "macros"@[0] == 'm',
        "minRuleThickness"@.len() == 16,
        "maxSize"@.len() == 7,
        "maxExpand"@.len() == 9,
        "trust"@.len() == 5 && "trust"@[0] == 't',
{
    reveal_strlit("displayMode");
    reveal_strlit("output");
    reveal_strlit("leqno");
    reveal_strlit("fleqn");
    reveal_strlit("throwOnError");
    reveal_strlit("errorColor");
    reveal_strlit("macros");
    reveal_strlit("minRuleThickness");
    reveal_strlit("maxSize");
    reveal_strlit("maxExpand");
    reveal_strlit("trust");
}

/// Append an option entry, updating lookup for its key alone.
fn push_entry(es: &mut Vec<(String, Value)>, key: String, v: Value)
    ensures
        lookup(final(es)@, key@) == Some(v),
        forall|k: Seq<char>| k != key@ ==> #[trigger] lookup(final(es)@, k) == lookup(
            old(es)@,
            k,
        ),
{
    let ghost before = es@;
    let ghost pair = (key, v);
    es.push((key, v));
    proof {
        assert forall|k: Seq<char>| #[trigger] lookup(es@, k) == (if pair.0@ == k {
            Some(pair.1)
        } else {
            lookup(before, k)
        }) by {
            crate::value::lemma_lookup_push(before, pair, k);
        }
    }
}

/// The engine-side name of an output type.
fn output_type_text(t: OutputType) -> (r: String)
    ensures
        r@ == output_name(t),
{
    match t {
        OutputType::Html => "html".to_owned(),
        OutputType::Mathml => "mathml".to_owned(),
        OutputType::HtmlAndMathml => "htmlAndMathml".to_owned(),
    }
}

/// Builder for [`Opts`].
#[derive(Debug)]
pub struct OptsBuilder {
    /// The options collected so far.
    pub opts: Opts,
}

impl OptsBuilder {
    /// Render the math in display mode.
    pub fn display_mode(self, flag: bool) -> (r: OptsBuilder)
        ensures
            r.opts == (Opts { display_mode: Some(flag), ..self.opts }),
    {
        let mut b = self;
        b.opts.display_mode = Some(flag);
        b
    }

    /// Choose the output type.
    pub fn output_type(self, output_type: OutputType) -> (r: OptsBuilder)
        ensures
            r.opts == (Opts { output_type: Some(output_type), ..self.opts }),
    {
        let mut b = self;
        b.opts.output_type = Some(output_type);
        b
    }

    /// Render tags on the left instead of the right.
    pub fn leqno(self, flag: bool) -> (r: OptsBuilder)
        ensures
            r.opts == (Opts { leqno: Some(flag), ..self.opts }),
    {
        let mut b = self;
        b.opts.leqno = Some(flag);
        b
    }

    /// Flush display math left.
    pub fn fleqn(self, flag: bool) -> (r: OptsBuilder)
        ensures
            r.opts == (Opts { fleqn: Some(flag), ..self.opts }),
    {
        let mut b = self;
        b.opts.fleqn = Some(flag);
        b
    }

    /// Raise an execution error for invalid input instead of rendering it
    /// as error-colored text.
    pub fn throw_on_error(self, flag: bool) -> (r: OptsBuilder)
        ensures
            r.opts == (Opts { throw_on_error: Some(flag), ..self.opts }),
    {
        let mut b = self;
        b.opts.throw_on_error = Some(flag);
        b
    }

    /// Color used for invalid input.
    pub fn error_color(self, color: &str) -> (r: OptsBuilder)
        ensures
            r.opts matches Opts { error_color: Some(c), .. } && c@ == color@ && r.opts == (Opts {
                error_color: Some(c),
                ..self.opts
            }),
    {
        let mut b = self;
        b.opts.error_color = Some(color.to_owned());
        b
    }

    /// Add an entry to the custom macro definitions.
    pub fn add_macro(self, entry_name: String, entry_data: String) -> (r: OptsBuilder)
        ensures
            r.opts == (Opts { macros: r.opts.macros, ..self.opts }) && r.opts.macros@
                == self.opts.macros@.push((entry_name, entry_data)),
    {
        let mut b = self;
        b.opts.macros.push((entry_name, entry_data));
        b
    }

    /// Minimum rule thickness, in ems, as IEEE-754 double bits.
    pub fn min_rule_thickness(self, bits: u64) -> (r: OptsBuilder)
        ensures
            r.opts == (Opts { min_rule_thickness: Some(bits), ..self.opts }),
    {
        let mut b = self;
        b.opts.min_rule_thickness = Some(bits);
        b
    }

    /// Max size for user-specified sizes, as IEEE-754 double bits.
    pub fn max_size(self, bits: Option<u64>) -> (r: OptsBuilder)
        ensures
            r.opts == (Opts { max_size: Some(bits), ..self.opts }),
    {
        let mut b = self;
        b.opts.max_size = Some(bits);
        b
    }

    /// Limit on macro expansions.
    pub fn max_expand(self, limit: Option<i32>) -> (r: OptsBuilder)
        ensures
            r.opts == (Opts { max_expand: Some(limit), ..self.opts }),
    {
        let mut b = self;
        b.opts.max_expand = Some(limit);
        b
    }

    /// Trust the input.
    pub fn trust(self, flag: bool) -> (r: OptsBuilder)
        ensures
            r.opts == (Opts { trust: Some(flag), ..self.opts }),
    {
        let mut b = self;
        b.opts.trust = Some(flag);
        b
    }

    /// The finished options. Building cannot fail; the fallible signature
    /// keeps the builder's callers uniform.
    pub fn build(self) -> (r: Result<Opts, Error>)
        ensures
            r == Ok::<Opts, Error>(self.opts),
    {
        Ok(self.opts)
    }
}

} // verus!
