//! One run, from the texts of the template and of the data document to the
//! rendered text and the place it goes to.

use crate::cli::{Args, Output};
use crate::data::DatumView;
use crate::engine::handlebars_output;
use crate::failure::Failure;
use crate::output::{derived_path, generate_automatic_output_path};
use crate::render::{context_of, parse_context, render};
use vstd::prelude::*;

verus! {

/// Where the rendered text is written.
#[derive(Debug)]
pub enum Destination {
    /// The process's standard output.
    Stdout,
    /// The file at this path, created or truncated.
    File(String),
}

impl View for Destination {
    /// `None` for standard output, else the file's path.
    type V = Option<Seq<char>>;

    open spec fn view(&self) -> Option<Seq<char>> {
        match self {
            Destination::Stdout => None,
            Destination::File(path) => Some(path@),
        }
    }
}

/// What a run produces.
#[derive(Debug)]
pub struct Rendered {
    /// The rendered document.
    pub text: String,
    /// Where it is to be written.
    pub destination: Destination,
}

/// The destination that `args` selects under `context`, or `None` where the
/// path is to be derived and cannot be.
pub open spec fn destination_of(args: Args, context: Seq<(Seq<char>, DatumView)>) -> Option<
    Option<Seq<char>>,
> {
    match args.output {
        Output::Stdout => Some(None),
        Output::Specific(path) => Some(Some(path@)),
        Output::Automatic => match derived_path(args.template@, context) {
            Some(path) => Some(Some(path)),
            None => None,
        },
    }
}

/// Parses the data document, renders the template against it and selects
/// the destination, in this order; the first step that fails ends the run.
pub fn render_to_destination(args: &Args, template: &str, data: &str) -> (res: Result<
    Rendered,
    Failure,
>)
    ensures
        match res {
            Ok(out) => {
                &&& context_of(data@) matches Some(context)
                &&& handlebars_output(template@, context) == Some(out.text@)
                &&& destination_of(*args, context) == Some(out.destination@)
            },
            Err(e) => match context_of(data@) {
                None => e is DataParse,
                Some(context) => match handlebars_output(template@, context) {
                    None => e is Render,
                    Some(_) => e is FilenameRender && destination_of(*args, context) is None,
                },
            },
        },
{
    let context = match parse_context(data) {
        Ok(context) => context,
        Err(e) => {
            return Err(e);
        },
    };
    let text = match render(template, &context) {
        Ok(text) => text,
        Err(e) => {
            return Err(e);
        },
    };
    let destination = match &args.output {
        Output::Stdout => Destination::Stdout,
        Output::Specific(path) => Destination::File(path.clone()),
        Output::Automatic => match generate_automatic_output_path(
            args.template.as_str(),
            &context,
        ) {
            Ok(path) => Destination::File(path),
            Err(e) => {
                return Err(e);
            },
        },
    };
    Ok(Rendered { text, destination })
}

} // verus!
