//! What a run is asked to do: which template, which data file, and where the
//! rendered text goes.
//!
//! The file system is reached only through a probe handed in by the caller:
//! a function from a path to the canonical path of the existing file it
//! names, or `None` where there is no such file.

use crate::failure::Failure;
use crate::path::{extension, extension_of, sibling, sibling_of, with_extension, with_extension_of};
use vstd::prelude::*;

verus! {

/// Where to output the interpolated template.
#[derive(Debug)]
pub enum Output {
    /// Output directly to stdout.
    Stdout,
    /// Output to an automatically-generated file path.
    Automatic,
    /// Output to an explicit path.
    Specific(String),
}

/// Container for CLI arguments.
#[derive(Debug)]
pub struct Args {
    /// Location of the template file.
    pub template: String,
    /// Where to get data to interpolate in the template.
    pub data: Option<String>,
    /// Where to output the rendered text.
    pub output: Output,
}

/// Whether `path` names a template: its extension is `hbs`.
pub open spec fn is_template_path(path: Seq<char>) -> bool {
    extension(path) == Some("hbs"@)
}

/// `answer` is what `probe` may say of `path`.
pub open spec fn probed<F: Fn(&str) -> Option<String>>(
    probe: F,
    path: Seq<char>,
    answer: Option<String>,
) -> bool {
    exists|s: &str| s@ == path && #[trigger] call_ensures(probe, (s,), answer)
}

/// The places where the data file is looked for, in order of precedence: the
/// path the caller gave, the template with its extension replaced by `toml`,
/// and `template.toml` beside the template.
pub open spec fn data_candidates(tpl: Seq<char>, given: Option<Seq<char>>) -> Seq<Seq<char>> {
    let derived = seq![with_extension(tpl, "toml"@), sibling(tpl, "template.toml"@)];
    match given {
        Some(g) => seq![g] + derived,
        None => derived,
    }
}

/// `found` is the probe's answer for the first of `candidates` that exists,
/// or `None` where the probe found none of them.
pub open spec fn first_found<F: Fn(&str) -> Option<String>>(
    probe: F,
    candidates: Seq<Seq<char>>,
    found: Option<String>,
) -> bool {
    match found {
        Some(_) => exists|k: int|
            0 <= k < candidates.len() && #[trigger] probed(probe, candidates[k], found)
                && forall|j: int|
                0 <= j < k ==> #[trigger] probed(probe, candidates[j], None::<String>),
        None => forall|j: int|
            0 <= j < candidates.len() ==> #[trigger] probed(
                probe,
                candidates[j],
                None::<String>,
            ),
    }
}

/// Precedence of the data file named like the template: where the path the
/// caller gave names no file and `same_name` is the only answer for the
/// template's path with the extension `toml`, that answer is what is found,
/// whatever stands at `template.toml`.
pub proof fn lemma_same_name_before_fallback<F: Fn(&str) -> Option<String>>(
    probe: F,
    tpl: Seq<char>,
    given: Option<Seq<char>>,
    same_name: String,
    found: Option<String>,
)
    requires
        first_found(probe, data_candidates(tpl, given), found),
        given is Some ==> forall|answer: Option<String>| #[trigger]
            probed(probe, given->0, answer) ==> answer is None,
        forall|answer: Option<String>| #[trigger]
            probed(probe, with_extension(tpl, "toml"@), answer) ==> answer == Some(same_name),
    ensures
        found == Some(same_name),
{
    let candidates = data_candidates(tpl, given);
    let base: int = if given is Some { 1 } else { 0 };
    assert(candidates[base] == with_extension(tpl, "toml"@));
    match found {
        Some(_) => {
            let k = choose|k: int|
                0 <= k < candidates.len() && #[trigger] probed(probe, candidates[k], found)
                    && forall|j: int|
                    0 <= j < k ==> #[trigger] probed(probe, candidates[j], None::<String>);
            if k > base {
                assert(probed(probe, candidates[base], None::<String>));
            }
        },
        None => {
            assert(probed(probe, candidates[base], None::<String>));
        },
    }
}

/// The output that the two output options select: standard output, the path
/// given, or, with neither, a path derived from the template and the data.
pub open spec fn selected_output(stdout: bool, output: Option<Seq<char>>, out: Output) -> bool {
    if stdout {
        out is Stdout
    } else {
        match output {
            Some(p) => out matches Output::Specific(q) && q@ == p,
            None => out is Automatic,
        }
    }
}

/// Accepts `path` as a template's path only with the template extension.
pub fn check_template_extension(path: &str) -> (res: Result<(), Failure>)
    ensures
        res is Ok <==> is_template_path(path@),
        res is Err ==> res matches Err(Failure::InvalidTemplateExtension),
{
    if has_template_extension(path) {
        Ok(())
    } else {
        Err(Failure::InvalidTemplateExtension)
    }
}

/// Whether `path` carries the template extension.
pub fn has_template_extension(path: &str) -> (yes: bool)
    ensures
        yes == is_template_path(path@),
{
    match extension_of(path) {
        Some(ext) => ext == String::from_str("hbs"),
        None => false,
    }
}

/// Get the path to the data file. If it is specified and exists, use that.
/// If not, look for a file with the same name as the template but with a
/// `.toml` extension, and finally for `template.toml` beside the template.
/// Finding none is no error.
pub fn get_data_path<F: Fn(&str) -> Option<String>>(
    tpl_path: &str,
    data_path: Option<&str>,
    probe: F,
) -> (found: Option<String>)
    requires
        forall|p: &str| call_requires(probe, (p,)),
    ensures
        first_found(
            probe,
            data_candidates(
                tpl_path@,
                match data_path {
                    Some(p) => Some(p@),
                    None => None,
                },
            ),
            found,
        ),
{
    let ghost given = match data_path {
        Some(p) => Some(p@),
        None => None,
    };
    let ghost candidates = data_candidates(tpl_path@, given);
    let ghost base: int = if data_path is Some { 1 } else { 0 };
    // First check if a path was specified explicitly, and whether it exists.
    if let Some(p) = data_path {
        let answer = probe(p);
        assert(probed(probe, candidates[0], answer));
        if answer.is_some() {
            return answer;
        }
    }
    // Next see if a toml file exists with the same name as the template.
    let same_name = with_extension_of(tpl_path, "toml");
    let answer = probe(same_name.as_str());
    assert(probed(probe, candidates[base], answer));
    if answer.is_some() {
        return answer;
    }
    // Finally, look for a `template.toml` file.
    let fallback = sibling_of(tpl_path, "template.toml");
    let answer = probe(fallback.as_str());
    assert(probed(probe, candidates[base + 1], answer));
    answer
}

impl Args {
    /// Resolves the options of a run. `template` must name an existing file
    /// with the extension `hbs`; the data file is then looked for with
    /// [`get_data_path`], and the output is selected from `stdout` and
    /// `output`.
    pub fn new<F: Fn(&str) -> Option<String>>(
        template: &str,
        data: Option<&str>,
        output: Option<String>,
        stdout: bool,
        probe: F,
    ) -> (res: Result<Args, Failure>)
        requires
            forall|p: &str| call_requires(probe, (p,)),
            !(stdout && output is Some),
        ensures
            match res {
                Ok(args) => {
                    &&& probed(probe, template@, Some(args.template))
                    &&& is_template_path(args.template@)
                    &&& first_found(
                        probe,
                        data_candidates(
                            args.template@,
                            match data {
                                Some(p) => Some(p@),
                                None => None,
                            },
                        ),
                        args.data,
                    )
                    &&& selected_output(
                        stdout,
                        match output {
                            Some(p) => Some(p@),
                            None => None,
                        },
                        args.output,
                    )
                },
                Err(Failure::TemplateNotFound) => probed(probe, template@, None::<String>),
                Err(Failure::InvalidTemplateExtension) => exists|canonical: String|
                    #[trigger] probed(probe, template@, Some(canonical)) && !is_template_path(
                        canonical@,
                    ),
                Err(_) => false,
            },
            (forall|answer: Option<String>| #[trigger]
                probed(probe, template@, answer) ==> answer is Some && !is_template_path(
                    answer->0@,
                )) ==> res matches Err(Failure::InvalidTemplateExtension),
    {
        let answer = probe(template);
        assert(probed(probe, template@, answer));
        let canonical = match answer {
            Some(canonical) => canonical,
            None => {
                return Err(Failure::TemplateNotFound);
            },
        };
        match check_template_extension(canonical.as_str()) {
            Ok(()) => {},
            Err(e) => {
                return Err(e);
            },
        }
        let data = get_data_path(canonical.as_str(), data, probe);
        let output = if stdout {
            Output::Stdout
        } else {
            match output {
                Some(path) => Output::Specific(path),
                None => Output::Automatic,
            }
        };
        Ok(Args { template: canonical, data, output })
    }
}

} // verus!
