//! What can end a run.

use vstd::prelude::*;

verus! {

/// Every failure is terminal for the run; none is recovered from.
#[derive(Debug)]
pub enum Failure {
    /// The template path names no existing file.
    TemplateNotFound,
    /// The template's file name does not end in `.hbs`.
    InvalidTemplateExtension,
    /// The data document is malformed; the parser's message is attached.
    DataParse(String),
    /// The main document could not be rendered; the engine's message is
    /// attached.
    Render(String),
    /// The output file name could not be rendered from the `filename` table;
    /// the engine's message is attached.
    FilenameRender(String),
}

impl Failure {
    /// A diagnostic for the operator.
    pub fn message(&self) -> (text: String)
        ensures
            match *self {
                Failure::TemplateNotFound => text@ == "Template does not exist"@,
                Failure::InvalidTemplateExtension => text@ == "Template is not a .hbs file"@,
                Failure::DataParse(detail) => text@ == "Could not parse data: "@ + detail@,
                Failure::Render(detail) => text@ == "Could not render template: "@ + detail@,
                Failure::FilenameRender(detail) => text@ == "Could not render file name: "@
                    + detail@,
            },
    {
        match self {
            Failure::TemplateNotFound => String::from_str("Template does not exist"),
            Failure::InvalidTemplateExtension => String::from_str("Template is not a .hbs file"),
            Failure::DataParse(detail) => String::from_str("Could not parse data: ").concat(
                detail.as_str(),
            ),
            Failure::Render(detail) => String::from_str("Could not render template: ").concat(
                detail.as_str(),
            ),
            Failure::FilenameRender(detail) => String::from_str(
                "Could not render file name: ",
            ).concat(detail.as_str()),
        }
    }
}

} // verus!
