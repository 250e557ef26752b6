//! The command-line vocabulary: the two subcommands with their arguments,
//! and the path and setup-command helpers the invocations share.

use crate::types::{spec_language_name, spec_project_type_name, Language, ProjectType};
use vstd::prelude::*;
use vstd::string::StringExecFns;

verus! {

/// A whole invocation: exactly one of the two subcommands.
#[derive(Debug)]
pub struct Cli {
    pub command: Commands,
}

#[derive(Debug)]
pub enum Commands {
    New(NewProject),
    CloneRepo(CloneProject),
}

/// The arguments of the "create a new project" subcommand.
#[derive(Debug)]
pub struct NewProject {
    pub project_name: String,
    pub language: Language,
    pub project_type: ProjectType,
    pub advanced: bool,
}

/// The arguments of the "clone a project" subcommand.
#[derive(Debug)]
pub struct CloneProject {
    pub language: Language,
    pub project_type: ProjectType,
    pub url: String,
    pub new_name: Option<String>,
}

/// The directory a new project lives in, relative to the home marker:
/// the base directory, then the project type, language and name.
pub fn relative_project_dir(
    project_type: &ProjectType,
    language: &Language,
    project_name: &str,
) -> (r: String)
    ensures
        r@ == "~/Projects/"@ + spec_project_type_name(*project_type) + "/"@ + spec_language_name(
            *language,
        ) + "/"@ + project_name@,
{
    let mut out = "~/Projects/".to_owned();
    out.append(project_type.name().as_str());
    out.append("/");
    out.append(language.name().as_str());
    out.append("/");
    out.append(project_name);
    proof {
        assert(out@ =~= "~/Projects/"@ + spec_project_type_name(*project_type) + "/"@
            + spec_language_name(*language) + "/"@ + project_name@);
    }
    out
}

/// The directory clones of a type and language are gathered in, relative
/// to the home marker.
pub fn relative_language_dir(project_type: &ProjectType, language: &Language) -> (r: String)
    ensures
        r@ == "~/Projects/"@ + spec_project_type_name(*project_type) + "/"@ + spec_language_name(
            *language,
        ),
{
    let mut out = "~/Projects/".to_owned();
    out.append(project_type.name().as_str());
    out.append("/");
    out.append(language.name().as_str());
    proof {
        assert(out@ =~= "~/Projects/"@ + spec_project_type_name(*project_type) + "/"@
            + spec_language_name(*language));
    }
    out
}

/// Whether a language is one of the aliases that stand for Python.
pub open spec fn is_python(l: Language) -> bool {
    l is Py || l is Python
}

/// The shell line that activates a project's isolated environment.
pub open spec fn venv_activation(dir: Seq<char>) -> Seq<char> {
    "source "@ + dir + "/venv/bin/activate"@
}

/// The setup command to send into a fresh session: Python projects whose
/// isolated environment already exists on disk get its activation line;
/// every other case has nothing to set up.  The caller reports whether the
/// environment directory exists.
pub fn get_language_setup_command(
    language: &Language,
    project_dir: &str,
    venv_exists: bool,
) -> (r: Option<String>)
    ensures
        (is_python(*language) && venv_exists) ==> (r matches Some(c) && c@ == venv_activation(
            project_dir@,
        )),
        !(is_python(*language) && venv_exists) ==> r is None,
{
    match language {
        Language::Py | Language::Python => {
            if venv_exists {
                let mut out = "source ".to_owned();
                out.append(project_dir);
                out.append("/venv/bin/activate");
                proof {
                    assert(out@ =~= venv_activation(project_dir@));
                }
                Some(out)
            } else {
                None
            }
        },
        _ => None,
    }
}

} // verus!
