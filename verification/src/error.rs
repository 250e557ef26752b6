//! The error taxonomy.  Every failure of an invocation is one of these
//! kinds; each carries the offending value or a short description, and all
//! of them are terminal for the invocation that raised them.

use vstd::prelude::*;
use vstd::string::StringExecFns;

verus! {

#[derive(Debug, PartialEq, Eq)]
pub enum PactError {
    /// The configuration document is absent; carries the path looked at.
    ConfigNotFound(String),
    /// The configuration document has the wrong shape; carries a description.
    ConfigParse(String),
    /// A step entry matches none of the known step shapes.
    MalformedStep(String),
    /// The requested language is not a key of the relevant action map.
    UnknownLanguage(String),
    /// The requested project type is not a key of the type table.
    UnknownType(String),
    /// An external step exited with a non-zero status; carries its report.
    StepFailed(String),
    /// The target project directory already exists and is not overwritten.
    DirectoryExists(String),
}

/// The single-line diagnostic for an error: the failure kind, a colon, and
/// the offending value or description.
pub open spec fn spec_describe(e: PactError) -> Seq<char> {
    match e {
        PactError::ConfigNotFound(p) => "configuration file not found: "@ + p@,
        PactError::ConfigParse(d) => "configuration is malformed: "@ + d@,
        PactError::MalformedStep(d) => "malformed step: "@ + d@,
        PactError::UnknownLanguage(l) => "unknown language: "@ + l@,
        PactError::UnknownType(t) => "unknown project type: "@ + t@,
        PactError::StepFailed(d) => "step failed: "@ + d@,
        PactError::DirectoryExists(p) => "project directory already exists: "@ + p@,
    }
}

impl PactError {
    /// Renders the single-line diagnostic that an invocation reports just
    /// before it exits with a non-zero status.
    pub fn describe(&self) -> (r: String)
        ensures
            r@ == spec_describe(*self),
    {
        let (head, body): (&str, &String) = match self {
            PactError::ConfigNotFound(p) => ("configuration file not found: ", p),
            PactError::ConfigParse(d) => ("configuration is malformed: ", d),
            PactError::MalformedStep(d) => ("malformed step: ", d),
            PactError::UnknownLanguage(l) => ("unknown language: ", l),
            PactError::UnknownType(t) => ("unknown project type: ", t),
            PactError::StepFailed(d) => ("step failed: ", d),
            PactError::DirectoryExists(p) => ("project directory already exists: ", p),
        };
        let mut out = head.to_owned();
        out.append(body.as_str());
        out
    }
}

} // verus!
