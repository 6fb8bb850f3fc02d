//! Deriving the name of the file that the rendered text is written to, and
//! writing the text.

use crate::data::{entries_view, lemma_table_view, lookup, DataContext, Datum, DatumView};
use crate::engine::{handlebars_output, render_error_text, render_template};
use crate::failure::Failure;
use crate::path::{file_stem, file_stem_of, sibling, sibling_of};
use crate::scalar::{scalar_text, scalar_text_of};
use crate::substitute::{
    lemma_replace_without_occurrence, occurs_in, replace_all, replace_all_in,
};
use vstd::prelude::*;
use vstd::string::StringSliceAdditionalSpecFns;
use vstd::utf8::{decode_utf8, encode_utf8_decode_utf8, encode_utf8_valid_utf8, valid_utf8};

verus! {

/// What the reserved top-level key `filename` asks for.
pub enum FilenameRule {
    /// The key is absent: the output is named like the template.
    Absent,
    /// The key holds a scalar: its text takes the place of the word
    /// `template` in the template's name.
    Scalar(Seq<char>),
    /// The key holds a table: the template's name is itself rendered as a
    /// template, against that table.
    Table(Seq<(Seq<char>, DatumView)>),
    /// The key holds an array, from which no name can be made.
    Sequence,
}

/// The rule that a context gives for the output's name.
pub open spec fn filename_rule(context: Seq<(Seq<char>, DatumView)>) -> FilenameRule {
    match lookup(context, "filename"@) {
        None => FilenameRule::Absent,
        Some(DatumView::Table(table)) => FilenameRule::Table(table),
        Some(DatumView::Array(_)) => FilenameRule::Sequence,
        Some(scalar) => FilenameRule::Scalar(scalar_text(scalar)),
    }
}

/// The output's file name for a template whose name without `.hbs` is
/// `stem`, or `None` where none can be made.
pub open spec fn derived_name(stem: Seq<char>, rule: FilenameRule) -> Option<Seq<char>> {
    match rule {
        FilenameRule::Absent => Some(stem),
        FilenameRule::Scalar(text) => Some(replace_all(stem, "template"@, text)),
        FilenameRule::Table(table) => handlebars_output(stem, table),
        FilenameRule::Sequence => None,
    }
}

/// The output path for the template at `tpl_path`: the derived name, in the
/// template's directory.
pub open spec fn derived_path(tpl_path: Seq<char>, context: Seq<(Seq<char>, DatumView)>) -> Option<
    Seq<char>,
> {
    match derived_name(file_stem(tpl_path), filename_rule(context)) {
        Some(name) => Some(sibling(tpl_path, name)),
        None => None,
    }
}

/// What the reserved top-level key `filename` of a context asks for.
#[derive(Debug)]
pub enum FilenameKey<'a> {
    /// The key is absent.
    Absent,
    /// The key holds a scalar with this text.
    Scalar(String),
    /// The key holds this table.
    Table(&'a Vec<(String, Datum)>),
    /// The key holds an array.
    Sequence,
}

impl<'a> View for FilenameKey<'a> {
    type V = FilenameRule;

    open spec fn view(&self) -> FilenameRule {
        match self {
            FilenameKey::Absent => FilenameRule::Absent,
            FilenameKey::Scalar(text) => FilenameRule::Scalar(text@),
            FilenameKey::Table(table) => FilenameRule::Table(entries_view(table@)),
            FilenameKey::Sequence => FilenameRule::Sequence,
        }
    }
}

/// Reads the reserved key `filename` from the top level of `context`.
pub fn filename_key<'a>(context: &'a DataContext) -> (key: FilenameKey<'a>)
    ensures
        key@ == filename_rule(context@),
{
    match context.get("filename") {
        None => FilenameKey::Absent,
        Some(Datum::Table(table)) => {
            proof {
                lemma_table_view(*table);
            }
            FilenameKey::Table(table)
        },
        Some(Datum::Array(_)) => FilenameKey::Sequence,
        Some(scalar) => FilenameKey::Scalar(scalar_text_of(scalar)),
    }
}

/// The output's file name for a template whose name without `.hbs` is
/// `stem`: the stem itself, the stem with the word `template` replaced, or
/// the stem rendered as a template, as `key` asks.
pub fn output_name(stem: &str, key: &FilenameKey) -> (res: Result<String, Failure>)
    ensures
        match res {
            Ok(name) => derived_name(stem@, key@) == Some(name@),
            Err(e) => derived_name(stem@, key@) is None && e is FilenameRender,
        },
{
    match key {
        FilenameKey::Absent => Ok(String::from_str(stem)),
        FilenameKey::Scalar(text) => Ok(replace_all_in(stem, "template", text.as_str())),
        FilenameKey::Table(table) => match render_template(stem, table) {
            Ok(name) => Ok(name),
            Err(e) => Err(Failure::FilenameRender(render_error_text(&e))),
        },
        FilenameKey::Sequence => Err(
            Failure::FilenameRender(String::from_str("`filename` is neither a table nor a scalar")),
        ),
    }
}

/// Generate the automatic output path. Replaces `template` in the template
/// file name with the value of the key `filename`, or renders the file name
/// against the table `filename`. Strips the final file extension.
pub fn generate_automatic_output_path(tpl_path: &str, context: &DataContext) -> (res: Result<
    String,
    Failure,
>)
    ensures
        match res {
            Ok(path) => derived_path(tpl_path@, context@) == Some(path@),
            Err(e) => derived_path(tpl_path@, context@) is None && e is FilenameRender,
        },
{
    let stem = file_stem_of(tpl_path);
    let key = filename_key(context);
    match output_name(stem.as_str(), &key) {
        Ok(name) => Ok(sibling_of(tpl_path, name.as_str())),
        Err(e) => Err(e),
    }
}

/// Without the key `filename` the output is named like the template, less
/// its last extension, whatever the template is called.
pub proof fn lemma_absent_filename_keeps_stem(
    tpl_path: Seq<char>,
    context: Seq<(Seq<char>, DatumView)>,
)
    requires
        lookup(context, "filename"@) is None,
    ensures
        derived_name(file_stem(tpl_path), filename_rule(context)) == Some(file_stem(tpl_path)),
        derived_path(tpl_path, context) == Some(sibling(tpl_path, file_stem(tpl_path))),
{
}

/// With a scalar under `filename` and a template's name in which the word
/// `template` does not occur, the output is named like the template, less
/// its last extension.
pub proof fn lemma_scalar_filename_without_word(stem: Seq<char>, text: Seq<char>)
    requires
        !occurs_in(stem, "template"@),
    ensures
        derived_name(stem, FilenameRule::Scalar(text)) == Some(stem),
{
    lemma_replace_without_occurrence(stem, "template"@, text);
}

/// What is written for a text is its UTF-8 encoding, from which the text is
/// read back unchanged.
pub proof fn lemma_written_text_reads_back(content: &str)
    ensures
        valid_utf8(content.spec_bytes()),
        decode_utf8(content.spec_bytes()) == content@,
{
    encode_utf8_valid_utf8(content@);
    encode_utf8_decode_utf8(content@);
}

/// Write the generated text to the given destination.
pub fn write_to_dest(dest: &mut Vec<u8>, content: &str)
    ensures
        final(dest)@ == old(dest)@ + content.spec_bytes(),
{
    let mut bytes = content.as_bytes_vec();
    dest.append(&mut bytes);
}

} // verus!
