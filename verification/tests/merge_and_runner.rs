use pact::{
    merge_phases, run_clone_project, run_new_project, Config, Execution, PactError, Phase, Phases,
    ProjectSteps, Step,
};

fn cmd(s: &str) -> Step {
    Step::Cmd(s.to_string())
}

fn phases(pre: Option<Vec<Step>>, main: Option<Vec<Step>>, post: Option<Vec<Step>>) -> Phases {
    Phases { pre, main, post }
}

fn sample_phases() -> Phases {
    phases(
        Some(vec![cmd("one"), cmd("two")]),
        None,
        Some(vec![]),
    )
}

#[test]
fn merge_identity_left() {
    let x = sample_phases();
    let merged = merge_phases(None, Some(&x));
    assert_eq!(merged, x);
}

#[test]
fn merge_identity_right() {
    let x = sample_phases();
    let merged = merge_phases(Some(&x), None);
    assert_eq!(merged, x);
}

#[test]
fn merge_order_common_before_override() {
    let common = phases(None, Some(vec![cmd("a"), cmd("b")]), None);
    let over = phases(None, Some(vec![cmd("c")]), None);
    let merged = merge_phases(Some(&common), Some(&over));
    assert_eq!(merged.main, Some(vec![cmd("a"), cmd("b"), cmd("c")]));
}

#[test]
fn merge_does_not_leak_between_slots() {
    let common = phases(Some(vec![cmd("setup")]), None, None);
    let over = phases(None, None, None);
    let merged = merge_phases(Some(&common), Some(&over));
    assert_eq!(merged.pre, Some(vec![cmd("setup")]));
    assert_eq!(merged.main, None);
    assert_eq!(merged.post, None);
}

#[test]
fn merge_absent_stays_absent() {
    let merged = merge_phases(None, None);
    assert_eq!(merged.pre, None);
    assert_eq!(merged.main, None);
    assert_eq!(merged.post, None);
}

#[test]
fn merge_present_empty_stays_present() {
    let common = phases(Some(vec![]), None, None);
    let over = phases(Some(vec![]), None, None);
    let merged = merge_phases(Some(&common), Some(&over));
    assert_eq!(merged.pre, Some(vec![]));
    assert_eq!(merged.main, None);
}

#[test]
fn merge_keeps_duplicates_and_order() {
    let common = phases(None, None, Some(vec![cmd("x"), cmd("x")]));
    let over = phases(None, None, Some(vec![cmd("x")]));
    let merged = merge_phases(Some(&common), Some(&over));
    assert_eq!(merged.post, Some(vec![cmd("x"), cmd("x"), cmd("x")]));
}

fn small_config() -> Config {
    Config {
        types: vec![("personal".to_string(), "personal".to_string())],
        shell: None,
        common: None,
        new: Some(vec![(
            "rust".to_string(),
            ProjectSteps {
                dir: None,
                phases: phases(None, Some(vec![cmd("cargo init .")]), None),
            },
        )]),
        clone: Some(vec![(
            "python".to_string(),
            ProjectSteps {
                dir: None,
                phases: phases(Some(vec![Step::CloneMarker]), None, None),
            },
        )]),
    }
}

#[test]
fn unknown_language_is_reported() {
    let config = small_config();
    let r = run_new_project(&config, "haskell", "personal");
    match r {
        Err(PactError::UnknownLanguage(l)) => assert_eq!(l, "haskell"),
        other => panic!("expected an unknown-language error, got {:?}", other),
    }
}

#[test]
fn missing_action_map_is_unknown_language() {
    let mut config = small_config();
    config.new = None;
    let r = run_new_project(&config, "rust", "personal");
    match r {
        Err(PactError::UnknownLanguage(l)) => assert_eq!(l, "rust"),
        other => panic!("expected an unknown-language error, got {:?}", other),
    }
}

#[test]
fn unknown_type_is_reported() {
    let config = small_config();
    let r = run_new_project(&config, "rust", "corporate");
    match r {
        Err(PactError::UnknownType(t)) => assert_eq!(t, "corporate"),
        other => panic!("expected an unknown-type error, got {:?}", other),
    }
}

#[test]
fn new_project_merges_language_phases() {
    let config = small_config();
    let merged = run_new_project(&config, "rust", "personal").unwrap();
    assert_eq!(merged.pre, None);
    assert_eq!(merged.main, Some(vec![cmd("cargo init .")]));
    assert_eq!(merged.post, None);
}

#[test]
fn clone_project_name_from_url() {
    let config = small_config();
    let (merged, name) =
        run_clone_project(&config, "python", "personal", "https://example.com/org/repo.git", None)
            .unwrap();
    assert_eq!(name, "repo");
    assert_eq!(merged.pre, Some(vec![Step::CloneMarker]));
}

#[test]
fn clone_project_name_override() {
    let config = small_config();
    let override_name = "fresh".to_string();
    let (_, name) = run_clone_project(
        &config,
        "python",
        "personal",
        "https://example.com/org/repo.git",
        Some(&override_name),
    )
    .unwrap();
    assert_eq!(name, "fresh");
}

#[test]
fn clone_project_unknown_language() {
    let config = small_config();
    let r = run_clone_project(&config, "rust", "personal", "https://example.com/r.git", None);
    match r {
        Err(PactError::UnknownLanguage(l)) => assert_eq!(l, "rust"),
        other => panic!("expected an unknown-language error, got {:?}", other),
    }
}

#[test]
fn execution_walks_phases_in_order() {
    let p = phases(
        Some(vec![Step::GitInitMarker]),
        Some(vec![cmd("cargo init .")]),
        None,
    );
    let mut exec = Execution::new(&p);
    assert_eq!(exec.next_step(), Some((Phase::Pre, Step::GitInitMarker)));
    exec.advance(true);
    assert_eq!(exec.next_step(), Some((Phase::Main, cmd("cargo init ."))));
    exec.advance(true);
    assert_eq!(exec.next_step(), None);
    assert!(exec.is_done());
    assert!(!exec.is_failed());
}

#[test]
fn execution_aborts_after_failure() {
    let p = phases(Some(vec![cmd("false-cmd")]), Some(vec![cmd("touch marker")]), None);
    let mut exec = Execution::new(&p);
    assert_eq!(exec.next_step(), Some((Phase::Pre, cmd("false-cmd"))));
    exec.advance(false);
    // the failed step halts the plan: the marker step is never issued
    assert_eq!(exec.next_step(), None);
    assert!(exec.is_failed());
    assert!(!exec.is_done());
}

#[test]
fn progress_lines_match_step_and_phase() {
    assert_eq!(Phase::Pre.title(), "-- Pre:");
    assert_eq!(Phase::Main.title(), "-- Main:");
    assert_eq!(Phase::Post.title(), "-- Post:");
    assert_eq!(cmd("cargo build").label(), "  CMD: cargo build");
    assert_eq!(Step::CloneMarker.label(), "  CLONE");
    assert_eq!(Step::GitInitMarker.label(), "  GIT INIT");
}

#[test]
fn error_descriptions_name_kind_and_value() {
    assert_eq!(
        PactError::UnknownLanguage("zig".to_string()).describe(),
        "unknown language: zig"
    );
    assert_eq!(
        PactError::UnknownType("shed".to_string()).describe(),
        "unknown project type: shed"
    );
    assert_eq!(
        PactError::ConfigNotFound("a.yaml".to_string()).describe(),
        "configuration file not found: a.yaml"
    );
    assert_eq!(
        PactError::StepFailed("exit 2".to_string()).describe(),
        "step failed: exit 2"
    );
    assert_eq!(
        PactError::DirectoryExists("/tmp/x".to_string()).describe(),
        "project directory already exists: /tmp/x"
    );
}
