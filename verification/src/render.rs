//! Reading the rendering context and rendering a template against it.

use crate::data::{DataContext, DatumView};
use crate::engine::{
    handlebars_output, parse_error_text, parse_toml, render_error_text, render_template,
    toml_document,
};
use crate::failure::Failure;
use vstd::prelude::*;

verus! {

/// The context that a data document gives: the empty one for an empty
/// document, else what the TOML parser reads, or `None` where it rejects
/// the document.
pub open spec fn context_of(data: Seq<char>) -> Option<Seq<(Seq<char>, DatumView)>> {
    if data.len() == 0 {
        Some(Seq::empty())
    } else {
        toml_document(data)
    }
}

/// Reads the rendering context from the text of a data document. A run
/// without a data file hands in the empty text.
pub fn parse_context(data: &str) -> (res: Result<DataContext, Failure>)
    ensures
        match res {
            Ok(context) => context_of(data@) == Some(context@),
            Err(e) => context_of(data@) is None && e is DataParse,
        },
{
    if data.unicode_len() == 0 {
        Ok(DataContext::empty())
    } else {
        match parse_toml(data) {
            Ok(entries) => Ok(DataContext { entries }),
            Err(e) => Err(Failure::DataParse(parse_error_text(&e))),
        }
    }
}

/// What [`render`] may return for a template and a context.
pub open spec fn render_outcome(
    template: Seq<char>,
    context: Seq<(Seq<char>, DatumView)>,
    res: Result<String, Failure>,
) -> bool {
    match res {
        Ok(text) => handlebars_output(template, context) == Some(text@),
        Err(e) => handlebars_output(template, context) is None && e is Render,
    }
}

/// Renders `template` against `context`. A template that the engine cannot
/// parse or render is a failure of the run.
pub fn render(template: &str, context: &DataContext) -> (res: Result<String, Failure>)
    ensures
        render_outcome(template@, context@, res),
{
    match render_template(template, &context.entries) {
        Ok(text) => Ok(text),
        Err(e) => Err(Failure::Render(render_error_text(&e))),
    }
}

/// Rendering is repeatable: two renderings of one template against one
/// context fail together or give the same text.
pub proof fn lemma_render_repeatable(
    template: Seq<char>,
    context: Seq<(Seq<char>, DatumView)>,
    first: Result<String, Failure>,
    second: Result<String, Failure>,
)
    requires
        render_outcome(template, context, first),
        render_outcome(template, context, second),
    ensures
        first is Ok <==> second is Ok,
        first is Ok ==> first->Ok_0@ == second->Ok_0@,
{
}

} // verus!
