//! A project-scaffolding library: a declarative, configuration-driven step
//! pipeline for creating or cloning coding projects.
//!
//! A configuration document names project types, languages, and for each an
//! optional set of ordered phases (pre, main, post) of steps — shell
//! commands or clone / repository-init markers.  The library parses and
//! validates that document, merges the common phase set with a language's
//! own, resolves an invocation to an ordered plan, and walks that plan one
//! step at a time, halting for good at the first failed step.  All of it is
//! verified; the thin binary around it only reads files, parses arguments
//! and runs the external processes the plan asks for.

mod cli;
mod config;
mod error;
mod parse;
mod project_setup;
mod runner;
mod types;
mod utils;

pub use cli::{
    get_language_setup_command, relative_language_dir, relative_project_dir, Cli, CloneProject,
    Commands, NewProject,
};
pub use config::{
    common_view, find_entry, find_pair, keys_unique, lemma_merge_absent_vs_empty,
    lemma_merge_identity, lemma_merge_slot_independence, merge_phases, merge_vecs, merged_slot,
    seq_of_opt, spec_merge, CommonSteps, Config, Phases, PhasesView, ProjectSteps,
    ProjectStepsView, Step,
};
pub use error::PactError;
pub use parse::{
    config_ok, parse_config, parse_lang_map, parse_phases, parse_step, parse_steps, parse_types,
    spec_parse_step, RawNode,
};
pub use project_setup::generic_project_setup;
pub use runner::{
    action_lookup, lemma_failed_issues_no_step, run_clone_project, run_new_project, spec_plan,
    Execution, Phase,
};
pub use types::{spec_language_name, spec_project_type_name, Language, ProjectType};
pub use utils::{
    create_license, create_readme, expand_home_directory, expand_with_home,
    extract_repo_name_from_url, mit_license_text, repo_name_of, str_eq,
};
