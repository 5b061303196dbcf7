//! The parsed command line: which stream the template comes from, where
//! the rendered output goes, and whether a dotenv file is loaded first.
//!
//! The specifier `-` is a sentinel: as a template specifier it means
//! standard input, as an output specifier standard output. Any other
//! string is taken literally as a file path; the sentinel is never
//! treated as a filename.

use vstd::prelude::*;

verus! {

/// True of the one-character specifier `-`, the conventional placeholder
/// for standard input (as a source) or standard output (as a destination).
pub open spec fn is_stdio_sentinel(s: Seq<char>) -> bool {
    s.len() == 1 && s[0] == '-'
}

/// Where the template text comes from: standard input, or a named file.
pub enum TemplateSource {
    Stdin,
    File(String),
}

/// Where the rendered bytes go: standard output, or a named file
/// (created, or truncated if it exists).
pub enum OutputSink {
    Stdout,
    File(String),
}

/// Decides whether a specifier string is the stdio sentinel.
fn is_dash_specifier(s: &String) -> (b: bool)
    ensures
        b == is_stdio_sentinel(s@),
{
    s.as_str().unicode_len() == 1 && s.as_str().get_char(0) == '-'
}

impl TemplateSource {
    /// Classifies a template specifier: `-` means standard input,
    /// anything else is a file path taken literally.
    pub fn from_spec(s: String) -> (r: TemplateSource)
        ensures
            is_stdio_sentinel(s@) ==> r == TemplateSource::Stdin,
            !is_stdio_sentinel(s@) ==> (r matches TemplateSource::File(p) && p@ == s@),
    {
        if is_dash_specifier(&s) {
            TemplateSource::Stdin
        } else {
            TemplateSource::File(s)
        }
    }
}

impl OutputSink {
    /// Classifies an output specifier: `-` means standard output,
    /// anything else is a file path taken literally.
    pub fn from_spec(s: String) -> (r: OutputSink)
        ensures
            is_stdio_sentinel(s@) ==> r == OutputSink::Stdout,
            !is_stdio_sentinel(s@) ==> (r matches OutputSink::File(p) && p@ == s@),
    {
        if is_dash_specifier(&s) {
            OutputSink::Stdout
        } else {
            OutputSink::File(s)
        }
    }
}

/// The whole parsed command line, built once at startup and immutable
/// thereafter.
pub struct Invocation {
    /// Load a ".env" file into the environment before the context is built.
    pub use_dotenv: bool,
    /// Where the template text is read from.
    pub template: TemplateSource,
    /// Where the rendered output is written.
    pub output: OutputSink,
}

impl Invocation {
    /// Builds the invocation from the raw argument values: the dotenv
    /// flag and the two required positional specifiers.
    pub fn new(use_dotenv: bool, template_spec: String, output_spec: String) -> (inv: Invocation)
        ensures
            inv.use_dotenv == use_dotenv,
            is_stdio_sentinel(template_spec@) ==> inv.template == TemplateSource::Stdin,
            !is_stdio_sentinel(template_spec@) ==> (inv.template matches TemplateSource::File(p)
                && p@ == template_spec@),
            is_stdio_sentinel(output_spec@) ==> inv.output == OutputSink::Stdout,
            !is_stdio_sentinel(output_spec@) ==> (inv.output matches OutputSink::File(p)
                && p@ == output_spec@),
    {
        Invocation {
            use_dotenv,
            template: TemplateSource::from_spec(template_spec),
            output: OutputSink::from_spec(output_spec),
        }
    }
}

} // verus!
