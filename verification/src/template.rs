//! The MiniJinja calls that templating makes: building template values from
//! plain values, and rendering a template string.
use vstd::prelude::*;

use minijinja::Value;

verus! {

/// `minijinja::Value`, a value a template can see.
#[verifier::external_type_specification]
#[verifier::external_body]
pub struct ExJinjaValue(minijinja::Value);

/// The template value that `Value::from` makes of a string.
pub uninterp spec fn jinja_text(s: Seq<char>) -> Value;

/// The template value that `Value::from` makes of an `i32`.
pub uninterp spec fn jinja_int(i: i32) -> Value;

/// The template value that `Value::from` makes of an `Option<i32>`.
pub uninterp spec fn jinja_optional_int(o: Option<i32>) -> Value;

/// The template map that `Value::from` makes of a `BTreeMap<String, Value>`
/// holding the given entries.
pub uninterp spec fn jinja_map(entries: Seq<(Seq<char>, Value)>) -> Value;

/// The template map that `minijinja::__context::build` (the constructor
/// behind `context!` and behind serialized structs) makes of the given
/// entries; it keeps their order.
pub uninterp spec fn jinja_ordered_map(entries: Seq<(Seq<char>, Value)>) -> Value;

/// What `Environment::render_str` gives for a template source and a context
/// in an environment whose undefined behavior is `Strict` (when `strict`)
/// or `Lenient` (otherwise): the rendered text, or the alternate-form display
/// of the error.
pub uninterp spec fn jinja_render(source: Seq<char>, ctx: Value, strict: bool) -> Result<
    Seq<char>,
    Seq<char>,
>;

/// The abstract entries of a list of named template values.
pub open spec fn entries_view(entries: Seq<(String, Value)>) -> Seq<(Seq<char>, Value)> {
    entries.map_values(|e: (String, Value)| (e.0@, e.1))
}

/// The abstract entries of a list of template values named by literals.
pub open spec fn static_entries_view(entries: Seq<(&'static str, Value)>) -> Seq<(Seq<char>, Value)> {
    entries.map_values(|e: (&'static str, Value)| (e.0@, e.1))
}

/// Calls `minijinja::Value::from(String)`; the contract claims only that the
/// result is the value named by [`jinja_text`] for the string's characters.
#[verifier::external_body]
pub(crate) fn text_value(s: String) -> (v: Value)
    ensures
        v == jinja_text(s@),
{
    Value::from(s)
}

/// Calls `minijinja::Value::from(i32)`; the contract claims only that the
/// result is the value named by [`jinja_int`].
#[verifier::external_body]
pub(crate) fn int_value(i: i32) -> (v: Value)
    ensures
        v == jinja_int(i),
{
    Value::from(i)
}

/// Calls `minijinja::Value::from(Option<i32>)`, which turns `Some(i)` into
/// `Value::from(i)` (and `None` into the none value); the contract claims the
/// first of these and that the result is the value named by
/// [`jinja_optional_int`].
#[verifier::external_body]
pub(crate) fn optional_int_value(o: Option<i32>) -> (v: Value)
    ensures
        v == jinja_optional_int(o),
        o matches Some(i) ==> v == jinja_int(i),
{
    Value::from(o)
}

/// Collects the entries into a `BTreeMap<String, Value>` and calls
/// `minijinja::Value::from` on it; the contract claims only that the result
/// is the value named by [`jinja_map`] for the entries.
#[verifier::external_body]
pub(crate) fn map_value(entries: Vec<(String, Value)>) -> (v: Value)
    ensures
        v == jinja_map(entries_view(entries@)),
{
    Value::from(entries.into_iter().collect::<std::collections::BTreeMap<String, Value>>())
}

/// Calls `minijinja::__context::build`, which wraps the entries, in their
/// order, as a map object; the contract claims only that the result is the
/// value named by [`jinja_ordered_map`] for the entries.
#[verifier::external_body]
pub(crate) fn ordered_map_value(entries: Vec<(&'static str, Value)>) -> (v: Value)
    ensures
        v == jinja_ordered_map(static_entries_view(entries@)),
{
    minijinja::__context::build(entries)
}

/// Makes a `minijinja::Environment` with `Environment::new`, sets its
/// undefined behavior to `UndefinedBehavior::Strict` when `strict` and to
/// `UndefinedBehavior::Lenient` otherwise, and calls `render_str` on it; an
/// error is turned into its alternate-form display (`{:#}`). The contract
/// claims only that the outcome is the one named by [`jinja_render`] for the
/// source, the context and the mode.
#[verifier::external_body]
pub(crate) fn render_with(source: &str, ctx: Value, strict: bool) -> (r: Result<String, String>)
    ensures
        match r {
            Ok(s) => jinja_render(source@, ctx, strict) == Ok::<Seq<char>, Seq<char>>(s@),
            Err(m) => jinja_render(source@, ctx, strict) == Err::<Seq<char>, Seq<char>>(m@),
        },
{
    let behavior = match strict {
        true => minijinja::UndefinedBehavior::Strict,
        false => minijinja::UndefinedBehavior::Lenient,
    };
    let mut env = minijinja::Environment::new();
    env.set_undefined_behavior(behavior);
    env.render_str(source, ctx).map_err(|e| format!("{e:#}"))
}

/// `key` occurs exactly once among `es`, bound to `val`.
pub open spec fn binds_once(es: Seq<(Seq<char>, Value)>, key: Seq<char>, val: Value) -> bool {
    exists|i: int|
        0 <= i < es.len() && #[trigger] es[i] == (key, val) && forall|j: int|
            0 <= j < es.len() && j != i ==> #[trigger] es[j].0 != key
}

/// `v` is the ordered map of entries in which `key` is bound, once, to `val`.
pub open spec fn ordered_map_binds(v: Value, key: Seq<char>, val: Value) -> bool {
    exists|es: Seq<(Seq<char>, Value)>| #[trigger] jinja_ordered_map(es) == v && binds_once(es, key, val)
}

/// `v` is the map of entries in which `key` is bound, once, to `val`.
pub open spec fn map_binds(v: Value, key: Seq<char>, val: Value) -> bool {
    exists|es: Seq<(Seq<char>, Value)>| #[trigger] jinja_map(es) == v && binds_once(es, key, val)
}

} // verus!
