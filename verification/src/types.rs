//! The language and project-type vocabularies.
//!
//! Both enums are plain identifiers; each maps to the directory-name
//! fragment used when the project tree is laid out.

use vstd::prelude::*;

verus! {

#[derive(Debug, Clone, Copy, PartialEq, Eq, Structural)]
pub enum Language {
    Py,
    Python,
    Rs,
    Rust,
    C,
    EmbedC,
    Cpp,
    Esp32,
    EmbdedRs,
    Arduino,
}

/// The directory-name fragment that stands for a language; aliases such as
/// `Py` and `Python` share one fragment.
pub open spec fn spec_language_name(l: Language) -> Seq<char> {
    match l {
        Language::Python | Language::Py => "python"@,
        Language::Rs | Language::Rust => "rust"@,
        Language::C => "c"@,
        Language::Cpp => "cpp"@,
        Language::Esp32 | Language::EmbedC => "embedded-c"@,
        Language::EmbdedRs => "embedded-rust"@,
        Language::Arduino => "embedded-cpp"@,
    }
}

impl Language {
    /// The directory-name fragment for this language.
    pub fn name(&self) -> (r: String)
        ensures
            r@ == spec_language_name(*self),
    {
        match self {
            Language::Python | Language::Py => "python".to_owned(),
            Language::Rs | Language::Rust => "rust".to_owned(),
            Language::C => "c".to_owned(),
            Language::Cpp => "cpp".to_owned(),
            Language::Esp32 | Language::EmbedC => "embedded-c".to_owned(),
            Language::EmbdedRs => "embedded-rust".to_owned(),
            Language::Arduino => "embedded-cpp".to_owned(),
        }
    }
}

#[derive(Debug, Clone, Copy, PartialEq, Eq, Structural)]
pub enum ProjectType {
    Personal,
    School,
    Work,
    Test,
}

/// The directory-name fragment that stands for a project type.
pub open spec fn spec_project_type_name(t: ProjectType) -> Seq<char> {
    match t {
        ProjectType::Personal => "personal"@,
        ProjectType::School => "school"@,
        ProjectType::Work => "work"@,
        ProjectType::Test => "test"@,
    }
}

impl ProjectType {
    /// The directory-name fragment for this project type.
    pub fn name(&self) -> (r: String)
        ensures
            r@ == spec_project_type_name(*self),
    {
        match self {
            ProjectType::Personal => "personal".to_owned(),
            ProjectType::School => "school".to_owned(),
            ProjectType::Work => "work".to_owned(),
            ProjectType::Test => "test".to_owned(),
        }
    }
}

} // verus!
