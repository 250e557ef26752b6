//! The runner: resolves an invocation against the configuration, merges
//! the phase sets, and drives the resulting plan one step at a time.
//!
//! The runner itself performs no outside work.  It hands each step to the
//! caller, who runs it through the external collaborators and reports back
//! whether it succeeded; a failed step halts the plan for good.

use crate::config::{
    common_view, find_entry, find_pair, merge_phases, seq_of_opt, spec_merge, Config, Phases,
    PhasesView, ProjectSteps, Step,
};
use crate::error::PactError;
use crate::utils::{extract_repo_name_from_url, repo_name_of};
use vstd::prelude::*;

verus! {

/// The value the requested language resolves to in an action map, if the
/// map is present and has the language as a key.
pub open spec fn action_lookup(
    m: Option<Vec<(String, ProjectSteps)>>,
    lang: Seq<char>,
) -> Option<ProjectSteps> {
    match m {
        Some(v) => find_entry(v@, lang),
        None => None,
    }
}

/// Resolves a "new project" invocation: the language must be a key of the
/// `new` map and the project type a key of the type table; the result is
/// the common phase set merged with the language's own.
pub fn run_new_project(config: &Config, lang: &str, project_type: &str) -> (r: Result<
    Phases,
    PactError,
>)
    ensures
        r is Ok <==> (action_lookup(config.new, lang@) is Some && find_entry(
            config.types@,
            project_type@,
        ) is Some),
        r matches Ok(p) ==> p@ == spec_merge(
            common_view(config.common),
            Some(action_lookup(config.new, lang@)->0.phases@),
        ),
        action_lookup(config.new, lang@) is None ==> (r matches Err(e) && e matches
            PactError::UnknownLanguage(l) && l@ == lang@),
        (action_lookup(config.new, lang@) is Some && find_entry(config.types@, project_type@)
            is None) ==> (r matches Err(e) && e matches PactError::UnknownType(t) && t@
            == project_type@),
{
    let steps = match &config.new {
        None => {
            return Err(PactError::UnknownLanguage(lang.to_owned()));
        },
        Some(m) => match find_pair(m, lang) {
            None => {
                return Err(PactError::UnknownLanguage(lang.to_owned()));
            },
            Some(ps) => ps,
        },
    };
    if find_pair(&config.types, project_type).is_none() {
        return Err(PactError::UnknownType(project_type.to_owned()));
    }
    let common = match &config.common {
        Some(c) => Some(&c.phases),
        None => None,
    };
    Ok(merge_phases(common, Some(&steps.phases)))
}

/// The project name a clone invocation resolves to: the explicit override
/// when one is given, otherwise the name the URL carries.
pub open spec fn resolved_clone_name(url: Seq<char>, new_name: Option<&String>) -> Seq<char> {
    match new_name {
        Some(n) => n@,
        None => repo_name_of(url),
    }
}

/// Resolves a "clone project" invocation: like the new-project path but
/// keyed against the `clone` map, and also resolves the project name from
/// the explicit override or the URL.
pub fn run_clone_project(
    config: &Config,
    lang: &str,
    project_type: &str,
    url: &str,
    new_name: Option<&String>,
) -> (r: Result<(Phases, String), PactError>)
    ensures
        r is Ok <==> (action_lookup(config.clone, lang@) is Some && find_entry(
            config.types@,
            project_type@,
        ) is Some),
        r matches Ok(p) ==> p.0@ == spec_merge(
            common_view(config.common),
            Some(action_lookup(config.clone, lang@)->0.phases@),
        ),
        r matches Ok(p) ==> p.1@ == resolved_clone_name(url@, new_name),
        action_lookup(config.clone, lang@) is None ==> (r matches Err(e) && e matches
            PactError::UnknownLanguage(l) && l@ == lang@),
        (action_lookup(config.clone, lang@) is Some && find_entry(config.types@, project_type@)
            is None) ==> (r matches Err(e) && e matches PactError::UnknownType(t) && t@
            == project_type@),
{
    let steps = match &config.clone {
        None => {
            return Err(PactError::UnknownLanguage(lang.to_owned()));
        },
        Some(m) => match find_pair(m, lang) {
            None => {
                return Err(PactError::UnknownLanguage(lang.to_owned()));
            },
            Some(ps) => ps,
        },
    };
    if find_pair(&config.types, project_type).is_none() {
        return Err(PactError::UnknownType(project_type.to_owned()));
    }
    let name = match new_name {
        Some(n) => (*n).clone(),
        None => extract_repo_name_from_url(url),
    };
    let common = match &config.common {
        Some(c) => Some(&c.phases),
        None => None,
    };
    Ok((merge_phases(common, Some(&steps.phases)), name))
}

/// One of the three ordered execution stages of a project action.
#[derive(Debug, Clone, Copy, PartialEq, Eq, Structural)]
pub enum Phase {
    Pre,
    Main,
    Post,
}

/// The heading printed when a phase starts.
pub open spec fn spec_phase_title(ph: Phase) -> Seq<char> {
    match ph {
        Phase::Pre => "-- Pre:"@,
        Phase::Main => "-- Main:"@,
        Phase::Post => "-- Post:"@,
    }
}

impl Phase {
    /// Renders the heading for this phase.
    pub fn title(&self) -> (r: String)
        ensures
            r@ == spec_phase_title(*self),
    {
        match self {
            Phase::Pre => "-- Pre:".to_owned(),
            Phase::Main => "-- Main:".to_owned(),
            Phase::Post => "-- Post:".to_owned(),
        }
    }
}

/// The steps one slot contributes to the plan, each tagged with its phase.
pub open spec fn tagged(ph: Phase, o: Option<Seq<Step>>) -> Seq<(Phase, Step)> {
    match o {
        Some(s) => s.map_values(|st: Step| (ph, st)),
        None => Seq::empty(),
    }
}

/// The full ordered plan of a phase set: every pre step, then every main
/// step, then every post step.
pub open spec fn spec_plan(p: PhasesView) -> Seq<(Phase, Step)> {
    tagged(Phase::Pre, p.pre) + tagged(Phase::Main, p.main) + tagged(Phase::Post, p.post)
}

fn push_tagged(out: &mut Vec<(Phase, Step)>, ph: Phase, steps: &Option<Vec<Step>>)
    ensures
        final(out)@ == old(out)@ + tagged(ph, seq_of_opt(*steps)),
{
    match steps {
        None => {
            proof {
                assert(old(out)@ + tagged(ph, seq_of_opt(*steps)) =~= old(out)@);
            }
        },
        Some(v) => {
            let mut i: usize = 0;
            proof {
                assert(out@ =~= old(out)@ + tagged(ph, Some(v@.take(0))));
            }
            while i < v.len()
                invariant
                    i <= v@.len(),
                    steps matches Some(sv) && sv@ == v@,
                    out@ == old(out)@ + tagged(ph, Some(v@.take(i as int))),
                decreases v@.len() - i,
            {
                out.push((ph, v[i].clone()));
                i = i + 1;
                proof {
                    assert(out@ =~= old(out)@ + tagged(ph, Some(v@.take(i as int))));
                }
            }
            proof {
                assert(v@.take(i as int) =~= v@);
            }
        },
    }
}

/// A running plan: the tagged steps in execution order, the position of
/// the next step, and whether a step has failed.  Once a step fails the
/// execution is stuck in the failed state and issues no further step.
pub struct Execution {
    steps: Vec<(Phase, Step)>,
    next: usize,
    failed: bool,
}

impl Execution {
    /// The full ordered plan being executed.
    pub closed spec fn plan(&self) -> Seq<(Phase, Step)> {
        self.steps@
    }

    /// How many steps have completed successfully.
    pub closed spec fn position(&self) -> int {
        self.next as int
    }

    /// Whether a step has failed.
    pub closed spec fn has_failed(&self) -> bool {
        self.failed
    }

    pub open spec fn wf(&self) -> bool {
        0 <= self.position() <= self.plan().len()
    }

    /// Lays out the plan of a merged phase set: phases strictly in
    /// pre, main, post order, steps strictly in sequence within each.
    pub fn new(phases: &Phases) -> (e: Execution)
        ensures
            e.wf(),
            e.plan() == spec_plan(phases@),
            e.position() == 0,
            !e.has_failed(),
    {
        let mut steps: Vec<(Phase, Step)> = Vec::new();
        push_tagged(&mut steps, Phase::Pre, &phases.pre);
        push_tagged(&mut steps, Phase::Main, &phases.main);
        push_tagged(&mut steps, Phase::Post, &phases.post);
        proof {
            assert(steps@ =~= spec_plan(phases@));
        }
        Execution { steps, next: 0, failed: false }
    }

    /// The step to run next: the one at the current position, unless the
    /// plan is exhausted or a step has failed — after a failure no step
    /// is ever issued again.
    pub fn next_step(&self) -> (r: Option<(Phase, Step)>)
        requires
            self.wf(),
        ensures
            (!self.has_failed() && self.position() < self.plan().len()) ==> r == Some(
                self.plan()[self.position()],
            ),
            (self.has_failed() || self.position() >= self.plan().len()) ==> r is None,
    {
        if self.failed || self.next >= self.steps.len() {
            None
        } else {
            let p = &self.steps[self.next];
            let r = Some((p.0, p.1.clone()));
            proof {
                assert((p.0, p.1) == self.plan()[self.position()]);
            }
            r
        }
    }

    /// Records the outcome of the step just issued: success moves on to
    /// the next step, failure halts the plan for good.
    pub fn advance(&mut self, success: bool)
        requires
            old(self).wf(),
            !old(self).has_failed(),
            old(self).position() < old(self).plan().len(),
        ensures
            final(self).wf(),
            final(self).plan() == old(self).plan(),
            success ==> (!final(self).has_failed() && final(self).position() == old(
                self,
            ).position() + 1),
            !success ==> (final(self).has_failed() && final(self).position() == old(
                self,
            ).position()),
    {
        if success {
            let n = self.steps.len();
            proof {
                assert(self.next < n);
            }
            self.next = self.next + 1;
        } else {
            self.failed = true;
        }
    }

    /// Whether every step of the plan has completed successfully.
    pub fn is_done(&self) -> (r: bool)
        ensures
            r == (!self.has_failed() && self.position() >= self.plan().len()),
    {
        !self.failed && self.next >= self.steps.len()
    }

    /// Whether a step has failed.
    pub fn is_failed(&self) -> (r: bool)
        ensures
            r == self.has_failed(),
    {
        self.failed
    }
}

/// Sequential abort: an execution in the failed state issues no step —
/// whatever `next_step` returns for it is `None`, so no step after a
/// failure is ever handed out.
pub proof fn lemma_failed_issues_no_step(e: Execution, r: Option<(Phase, Step)>)
    requires
        e.wf(),
        e.has_failed(),
        call_ensures(Execution::next_step, (&e,), r),
    ensures
        r is None,
{
}

} // verus!
