//! The generic project scaffold: which files a plain new project gets and
//! what they contain.  Writing them to disk is the caller's business.

use crate::utils::{create_license, create_readme, mit_license_text};
use vstd::prelude::*;

verus! {

/// The files a plain new project starts with: the license and a readme
/// headed by the project name, as relative-path and content pairs.  The
/// caller writes them into the project directory and initializes the
/// repository there.
pub fn generic_project_setup(project_name: &str) -> (r: Vec<(String, String)>)
    ensures
        r@.len() == 2,
        r@[0].0@ == "LICENSE"@,
        r@[0].1@ == mit_license_text(),
        r@[1].0@ == "README.md"@,
        r@[1].1@ == "# "@ + project_name@ + "\n\n"@,
{
    let mut out: Vec<(String, String)> = Vec::new();
    out.push(("LICENSE".to_owned(), create_license()));
    out.push(("README.md".to_owned(), create_readme(project_name)));
    out
}

} // verus!
