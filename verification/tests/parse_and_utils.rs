use pact::{
    create_license, create_readme, expand_home_directory, expand_with_home,
    extract_repo_name_from_url, generic_project_setup, get_language_setup_command, parse_config,
    parse_step, parse_steps, relative_language_dir, relative_project_dir, str_eq, Language,
    PactError, ProjectType, RawNode, Step,
};

fn text(s: &str) -> RawNode {
    RawNode::Text(s.to_string())
}

fn mapping(entries: Vec<(&str, RawNode)>) -> RawNode {
    RawNode::Mapping(entries.into_iter().map(|(k, v)| (k.to_string(), v)).collect())
}

fn marker(key: &str) -> RawNode {
    mapping(vec![(key, RawNode::Null)])
}

#[test]
fn step_from_bare_string() {
    assert_eq!(parse_step(&text("cargo build")).unwrap(), Step::Cmd("cargo build".to_string()));
}

#[test]
fn step_from_clone_marker() {
    assert_eq!(parse_step(&marker("clone")).unwrap(), Step::CloneMarker);
}

#[test]
fn step_from_git_init_marker() {
    assert_eq!(parse_step(&marker("git_init")).unwrap(), Step::GitInitMarker);
}

#[test]
fn step_rejects_unknown_marker() {
    match parse_step(&marker("unpack")) {
        Err(PactError::MalformedStep(_)) => {},
        other => panic!("expected a malformed-step error, got {:?}", other),
    }
}

#[test]
fn step_rejects_two_key_mapping() {
    let n = mapping(vec![("clone", RawNode::Null), ("git_init", RawNode::Null)]);
    match parse_step(&n) {
        Err(PactError::MalformedStep(_)) => {},
        other => panic!("expected a malformed-step error, got {:?}", other),
    }
}

#[test]
fn step_rejects_marker_with_value() {
    let n = mapping(vec![("clone", text("now"))]);
    match parse_step(&n) {
        Err(PactError::MalformedStep(_)) => {},
        other => panic!("expected a malformed-step error, got {:?}", other),
    }
}

#[test]
fn steps_keep_order() {
    let nodes = vec![text("a"), marker("git_init"), text("b")];
    let steps = parse_steps(&nodes).unwrap();
    assert_eq!(
        steps,
        vec![Step::Cmd("a".to_string()), Step::GitInitMarker, Step::Cmd("b".to_string())]
    );
}

fn sample_document() -> RawNode {
    mapping(vec![
        ("types", mapping(vec![("personal", text("personal")), ("work", text("jobs"))])),
        ("common", mapping(vec![("pre", RawNode::Sequence(vec![marker("git_init")]))])),
        (
            "new",
            mapping(vec![(
                "rust",
                mapping(vec![("main", RawNode::Sequence(vec![text("cargo init .")]))]),
            )]),
        ),
    ])
}

#[test]
fn config_parses_whole_document() {
    let config = parse_config(&sample_document()).unwrap();
    assert_eq!(config.types.len(), 2);
    assert_eq!(config.types[1], ("work".to_string(), "jobs".to_string()));
    assert_eq!(config.shell, None);
    let common = config.common.as_ref().unwrap();
    assert_eq!(common.phases.pre, Some(vec![Step::GitInitMarker]));
    assert_eq!(common.phases.main, None);
    let new = config.new.as_ref().unwrap();
    assert_eq!(new.len(), 1);
    assert_eq!(new[0].0, "rust");
    assert_eq!(new[0].1.dir, None);
    assert_eq!(new[0].1.phases.main, Some(vec![Step::Cmd("cargo init .".to_string())]));
    assert_eq!(config.clone, None);
}

#[test]
fn end_to_end_new_project_scenario() {
    // common contributes the repository marker, the language its build step
    let config = parse_config(&sample_document()).unwrap();
    let merged = pact::run_new_project(&config, "rust", "personal").unwrap();
    assert_eq!(merged.pre, Some(vec![Step::GitInitMarker]));
    assert_eq!(merged.main, Some(vec![Step::Cmd("cargo init .".to_string())]));
    assert_eq!(merged.post, None);
    let mut exec = pact::Execution::new(&merged);
    assert_eq!(exec.next_step(), Some((pact::Phase::Pre, Step::GitInitMarker)));
    exec.advance(true);
    assert_eq!(
        exec.next_step(),
        Some((pact::Phase::Main, Step::Cmd("cargo init .".to_string())))
    );
    exec.advance(true);
    assert!(exec.is_done());
}

#[test]
fn config_requires_types() {
    let doc = mapping(vec![("shell", text("zsh"))]);
    match parse_config(&doc) {
        Err(PactError::ConfigParse(_)) => {},
        other => panic!("expected a parse error, got {:?}", other),
    }
}

#[test]
fn config_rejects_empty_types() {
    let doc = mapping(vec![("types", mapping(vec![]))]);
    match parse_config(&doc) {
        Err(PactError::ConfigParse(_)) => {},
        other => panic!("expected a parse error, got {:?}", other),
    }
}

#[test]
fn config_rejects_duplicate_type_keys() {
    let doc = mapping(vec![(
        "types",
        mapping(vec![("personal", text("a")), ("personal", text("b"))]),
    )]);
    match parse_config(&doc) {
        Err(PactError::ConfigParse(_)) => {},
        other => panic!("expected a parse error, got {:?}", other),
    }
}

#[test]
fn config_rejects_non_mapping_root() {
    match parse_config(&text("just a string")) {
        Err(PactError::ConfigParse(_)) => {},
        other => panic!("expected a parse error, got {:?}", other),
    }
}

#[test]
fn config_reports_malformed_step_inside_language() {
    let doc = mapping(vec![
        ("types", mapping(vec![("personal", text("personal"))])),
        (
            "new",
            mapping(vec![(
                "rust",
                mapping(vec![("main", RawNode::Sequence(vec![marker("unpack")]))]),
            )]),
        ),
    ]);
    match parse_config(&doc) {
        Err(PactError::MalformedStep(_)) => {},
        other => panic!("expected a malformed-step error, got {:?}", other),
    }
}

#[test]
fn config_keeps_shell_and_dir() {
    let doc = mapping(vec![
        ("types", mapping(vec![("personal", text("personal"))])),
        ("shell", text("fish")),
        (
            "clone",
            mapping(vec![("python", mapping(vec![("dir", text("py-code"))]))]),
        ),
    ]);
    let config = parse_config(&doc).unwrap();
    assert_eq!(config.shell, Some("fish".to_string()));
    let clone = config.clone.as_ref().unwrap();
    assert_eq!(clone[0].1.dir, Some("py-code".to_string()));
    assert_eq!(clone[0].1.phases.pre, None);
}

#[test]
fn repo_name_with_git_suffix() {
    assert_eq!(extract_repo_name_from_url("https://example.com/org/repo.git"), "repo");
}

#[test]
fn repo_name_without_suffix() {
    assert_eq!(extract_repo_name_from_url("https://example.com/org/repo"), "repo");
}

#[test]
fn repo_name_skips_trailing_slash() {
    assert_eq!(extract_repo_name_from_url("https://example.com/org/repo/"), "repo");
    assert_eq!(extract_repo_name_from_url("https://example.com/org/repo.git///"), "repo");
}

#[test]
fn repo_name_of_empty_input_is_unknown() {
    assert_eq!(extract_repo_name_from_url(""), "unknown");
    assert_eq!(extract_repo_name_from_url("///"), "unknown");
}

#[test]
fn repo_name_of_bare_suffix_is_empty() {
    assert_eq!(extract_repo_name_from_url(".git"), "");
}

#[test]
fn setup_command_for_python_with_venv() {
    let r = get_language_setup_command(&Language::Py, "/projects/app", true);
    assert_eq!(r, Some("source /projects/app/venv/bin/activate".to_string()));
    let r = get_language_setup_command(&Language::Python, "/projects/app", true);
    assert_eq!(r, Some("source /projects/app/venv/bin/activate".to_string()));
}

#[test]
fn setup_command_absent_otherwise() {
    assert_eq!(get_language_setup_command(&Language::Py, "/projects/app", false), None);
    assert_eq!(get_language_setup_command(&Language::Rust, "/projects/app", true), None);
}

#[test]
fn language_names() {
    assert_eq!(Language::Python.name(), "python");
    assert_eq!(Language::Py.name(), "python");
    assert_eq!(Language::Rs.name(), "rust");
    assert_eq!(Language::Esp32.name(), "embedded-c");
    assert_eq!(Language::Arduino.name(), "embedded-cpp");
}

#[test]
fn project_type_names() {
    assert_eq!(ProjectType::Personal.name(), "personal");
    assert_eq!(ProjectType::Work.name(), "work");
}

#[test]
fn relative_paths() {
    assert_eq!(
        relative_project_dir(&ProjectType::Personal, &Language::Rust, "myproj"),
        "~/Projects/personal/rust/myproj"
    );
    assert_eq!(
        relative_language_dir(&ProjectType::School, &Language::Py),
        "~/Projects/school/python"
    );
}

#[test]
fn expand_with_home_replaces_marker() {
    assert_eq!(
        expand_with_home("~/code/x", &Some("/home/someone".to_string())),
        "/home/someone/code/x"
    );
    assert_eq!(expand_with_home("~/code/x", &None), "~/code/x");
    assert_eq!(expand_with_home("/absolute", &Some("/home/someone".to_string())), "/absolute");
}

#[test]
fn expand_home_directory_leaves_plain_paths() {
    assert_eq!(expand_home_directory("relative/path"), "relative/path");
}

#[test]
fn expand_home_directory_consumes_marker() {
    let r = expand_home_directory("~/somewhere");
    // with a home directory the marker is replaced; without one the path
    // stays as it was
    assert!(r == "~/somewhere" || (r.ends_with("/somewhere") && !r.starts_with("~/")));
}

#[test]
fn readme_and_license_contents() {
    assert_eq!(create_readme("tool"), "# tool\n\n");
    assert!(create_license().starts_with("MIT License"));
}

#[test]
fn generic_setup_plans_license_and_readme() {
    let files = generic_project_setup("tool");
    assert_eq!(files.len(), 2);
    assert_eq!(files[0].0, "LICENSE");
    assert!(files[0].1.starts_with("MIT License"));
    assert_eq!(files[1], ("README.md".to_string(), "# tool\n\n".to_string()));
}

#[test]
fn str_eq_compares_contents() {
    assert!(str_eq("abc", "abc"));
    assert!(!str_eq("abc", "abd"));
    assert!(!str_eq("abc", "ab"));
    assert!(str_eq("", ""));
}
