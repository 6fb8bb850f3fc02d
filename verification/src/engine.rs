//! The two outside collaborators: the TOML parser and the Handlebars
//! engine. What they compute is not proved here; each is given a name, and
//! the library's contracts speak of those names.

use crate::data::{entries_view, Datum, DatumView};
use toml::Value as Toml;
use vstd::prelude::*;

verus! {

/// The error of `toml::from_str`.
#[verifier::external_type_specification]
#[verifier::external_body]
pub struct ExTomlError(toml::de::Error);

/// A value of the `toml` crate.
#[verifier::external_type_specification]
#[verifier::external_body]
pub struct ExTomlValue(toml::Value);

/// The error of `Handlebars::render_template`.
#[verifier::external_type_specification]
#[verifier::external_body]
pub struct ExTemplateRenderError(handlebars::TemplateRenderError);

/// The top-level table that the TOML parser reads from a document, or `None`
/// where it rejects the document.
pub uninterp spec fn toml_document(text: Seq<char>) -> Option<Seq<(Seq<char>, DatumView)>>;

/// The text that the Handlebars engine renders from a template and a
/// context, or `None` where it cannot parse or render the template.
pub uninterp spec fn handlebars_output(
    template: Seq<char>,
    context: Seq<(Seq<char>, DatumView)>,
) -> Option<Seq<char>>;

/// Copies a value of the `toml` crate into the library's own type, variant
/// by variant; numbers with a fraction and dates are kept in the notation
/// that their `to_string` gives. Nothing is claimed of the result.
#[verifier::external_body]
pub(crate) fn value_from_toml(v: &toml::Value) -> Datum {
    match v {
        Toml::String(s) => Datum::Text(s.clone()),
        Toml::Integer(i) => Datum::Integer(*i),
        Toml::Float(x) => Datum::Real(x.to_string()),
        Toml::Boolean(b) => Datum::Boolean(*b),
        Toml::Datetime(d) => Datum::Datetime(d.to_string()),
        Toml::Array(a) => Datum::Array(a.iter().map(value_from_toml).collect()),
        Toml::Table(t) => Datum::Table(
            t.iter().map(|(k, v)| (k.clone(), value_from_toml(v))).collect(),
        ),
    }
}

/// Copies a value of the library into the `toml` crate's type, variant by
/// variant. A number or a date whose notation `str::parse` does not accept
/// is handed over as a string. Nothing is claimed of the result.
#[verifier::external_body]
pub(crate) fn value_to_toml(v: &Datum) -> toml::Value {
    match v {
        Datum::Text(s) => Toml::String(s.clone()),
        Datum::Integer(i) => Toml::Integer(*i),
        Datum::Real(s) => s.parse().map_or(Toml::String(s.clone()), Toml::Float),
        Datum::Boolean(b) => Toml::Boolean(*b),
        Datum::Datetime(s) => s.parse().map_or(
            Toml::String(s.clone()),
            Toml::Datetime,
        ),
        Datum::Array(a) => Toml::Array(a.iter().map(value_to_toml).collect()),
        Datum::Table(t) => Toml::Table(
            t.iter().map(|(k, v)| (k.clone(), value_to_toml(v))).collect(),
        ),
    }
}

/// Calls `toml::from_str` for a table. The contract claims that the result
/// is a function of the document's text alone: the table that
/// [`toml_document`] names, or an error where it names none.
#[verifier::external_body]
pub(crate) fn parse_toml(text: &str) -> (res: Result<Vec<(String, Datum)>, toml::de::Error>)
    ensures
        match res {
            Ok(entries) => toml_document(text@) == Some(entries_view(entries@)),
            Err(_) => toml_document(text@) is None,
        },
{
    let table: toml::value::Table = toml::from_str(text)?;
    Ok(table.iter().map(|(k, v)| (k.clone(), value_from_toml(v))).collect())
}

/// Calls `Handlebars::render_template` on a fresh registry. The contract
/// claims that the result is a function of the template's text and of the
/// context's content alone: the text that [`handlebars_output`] names, or an
/// error where it names none.
#[verifier::external_body]
pub(crate) fn render_template(template: &str, context: &Vec<(String, Datum)>) -> (res: Result<
    String,
    handlebars::TemplateRenderError,
>)
    ensures
        match res {
            Ok(text) => handlebars_output(template@, entries_view(context@)) == Some(text@),
            Err(_) => handlebars_output(template@, entries_view(context@)) is None,
        },
{
    let table: toml::value::Table = context.iter().map(|(k, v)| (k.clone(), value_to_toml(v))).collect();
    handlebars::Handlebars::new().render_template(template, &table)
}

/// The message of a `toml::de::Error`, as its `to_string` gives it.
#[verifier::external_body]
pub(crate) fn parse_error_text(e: &toml::de::Error) -> String {
    e.to_string()
}

/// The message of a `handlebars::TemplateRenderError`, as its `to_string`
/// gives it.
#[verifier::external_body]
pub(crate) fn render_error_text(e: &handlebars::TemplateRenderError) -> String {
    e.to_string()
}

} // verus!
