//! Output formats.
use vstd::prelude::*;

use crate::failure::Failure;
use crate::text::same;

verus! {

/// In which form results are printed.
#[derive(Debug, Clone, Copy, PartialEq, Eq, Structural)]
pub enum OutputFormat {
    Text,
    Json,
    Yaml,
}

impl OutputFormat {
    /// The format of a name.
    pub open spec fn named(s: Seq<char>) -> Option<OutputFormat> {
        if s == "text"@ {
            Some(OutputFormat::Text)
        } else if s == "json"@ {
            Some(OutputFormat::Json)
        } else if s == "yaml"@ {
            Some(OutputFormat::Yaml)
        } else {
            None
        }
    }

    /// The format of a name.
    pub fn parse(s: &str) -> (r: Option<OutputFormat>)
        ensures
            r == OutputFormat::named(s@),
    {
        if same(s, "text") {
            Some(OutputFormat::Text)
        } else if same(s, "json") {
            Some(OutputFormat::Json)
        } else if same(s, "yaml") {
            Some(OutputFormat::Yaml)
        } else {
            None
        }
    }
}

/// Reads a format that the user gave.
pub fn parse_output_format(s: &str) -> (r: Result<OutputFormat, Failure>)
    ensures
        match r {
            Ok(f) => OutputFormat::named(s@) == Some(f),
            Err(e) => OutputFormat::named(s@) is None && e@ == "unknown output format: "@ + s@,
        },
{
    match OutputFormat::parse(s) {
        Some(f) => Ok(f),
        None => Err(Failure::about("unknown output format: ", s)),
    }
}

} // verus!
