//! The step model and the phase merger.
//!
//! A project action is described by a phase set: three optional ordered
//! sequences of steps (pre, main, post).  A common phase set can be merged
//! with a language-specific one; within each slot the common steps always
//! precede the language-specific steps.

use crate::utils::{opt_str_view, str_eq};
use vstd::prelude::*;
use vstd::string::StringExecFns;

verus! {

/// One atomic action inside a phase: a verbatim shell command line, or a
/// marker that asks an external collaborator to perform the repository
/// clone or to initialize a repository in the project directory.
#[derive(Debug, PartialEq, Eq)]
pub enum Step {
    Cmd(String),
    CloneMarker,
    GitInitMarker,
}

impl Clone for Step {
    fn clone(&self) -> (r: Self)
        ensures
            r == *self,
    {
        match self {
            Step::Cmd(s) => Step::Cmd(s.clone()),
            Step::CloneMarker => Step::CloneMarker,
            Step::GitInitMarker => Step::GitInitMarker,
        }
    }
}

/// The progress line printed for a step just before it runs.
pub open spec fn spec_step_label(s: Step) -> Seq<char> {
    match s {
        Step::Cmd(c) => "  CMD: "@ + c@,
        Step::CloneMarker => "  CLONE"@,
        Step::GitInitMarker => "  GIT INIT"@,
    }
}

impl Step {
    /// Renders the progress line for this step.
    pub fn label(&self) -> (r: String)
        ensures
            r@ == spec_step_label(*self),
    {
        match self {
            Step::Cmd(c) => {
                let mut out = "  CMD: ".to_owned();
                out.append(c.as_str());
                out
            },
            Step::CloneMarker => "  CLONE".to_owned(),
            Step::GitInitMarker => "  GIT INIT".to_owned(),
        }
    }
}

/// The trio of optional step sequences attached to a common block or to a
/// language-specific block.  An absent slot means "nothing to contribute";
/// it is distinct from a present-but-empty sequence.
#[derive(Debug, PartialEq, Eq)]
pub struct Phases {
    pub pre: Option<Vec<Step>>,
    pub main: Option<Vec<Step>>,
    pub post: Option<Vec<Step>>,
}

/// The mathematical value of a phase set: each slot as an optional sequence.
#[verifier::ext_equal]
pub struct PhasesView {
    pub pre: Option<Seq<Step>>,
    pub main: Option<Seq<Step>>,
    pub post: Option<Seq<Step>>,
}

pub open spec fn seq_of_opt(o: Option<Vec<Step>>) -> Option<Seq<Step>> {
    match o {
        Some(v) => Some(v@),
        None => None,
    }
}

pub open spec fn seq_of_opt_ref(o: Option<&Vec<Step>>) -> Option<Seq<Step>> {
    match o {
        Some(v) => Some(v@),
        None => None,
    }
}

impl View for Phases {
    type V = PhasesView;

    open spec fn view(&self) -> PhasesView {
        PhasesView {
            pre: seq_of_opt(self.pre),
            main: seq_of_opt(self.main),
            post: seq_of_opt(self.post),
        }
    }
}

/// What merging does to one slot: both sides present concatenates them in
/// common-then-specific order, one side present keeps that side unchanged,
/// and two absent sides leave the slot absent.
pub open spec fn merged_slot(a: Option<Seq<Step>>, b: Option<Seq<Step>>) -> Option<Seq<Step>> {
    match (a, b) {
        (Some(x), Some(y)) => Some(x + y),
        (Some(x), None) => Some(x),
        (None, Some(y)) => Some(y),
        (None, None) => None,
    }
}

pub open spec fn opt_phases_view(p: Option<&Phases>) -> Option<PhasesView> {
    match p {
        Some(ph) => Some(ph@),
        None => None,
    }
}

pub open spec fn slot_pre(p: Option<PhasesView>) -> Option<Seq<Step>> {
    match p {
        Some(v) => v.pre,
        None => None,
    }
}

pub open spec fn slot_main(p: Option<PhasesView>) -> Option<Seq<Step>> {
    match p {
        Some(v) => v.main,
        None => None,
    }
}

pub open spec fn slot_post(p: Option<PhasesView>) -> Option<Seq<Step>> {
    match p {
        Some(v) => v.post,
        None => None,
    }
}

/// The merge of a common phase set with a language-specific one, slot by
/// slot; an absent phase set contributes nothing to any slot.
pub open spec fn spec_merge(c: Option<PhasesView>, p: Option<PhasesView>) -> PhasesView {
    PhasesView {
        pre: merged_slot(slot_pre(c), slot_pre(p)),
        main: merged_slot(slot_main(c), slot_main(p)),
        post: merged_slot(slot_post(c), slot_post(p)),
    }
}

fn clone_steps(v: &Vec<Step>) -> (r: Vec<Step>)
    ensures
        r@ == v@,
{
    let mut r: Vec<Step> = Vec::new();
    let mut i: usize = 0;
    while i < v.len()
        invariant
            i <= v.len(),
            r@ == v@.subrange(0, i as int),
        decreases v.len() - i,
    {
        r.push(v[i].clone());
        i = i + 1;
        proof {
            assert(r@ =~= v@.subrange(0, i as int));
        }
    }
    proof {
        assert(r@ =~= v@);
    }
    r
}

fn append_steps(out: &mut Vec<Step>, extra: &Vec<Step>)
    ensures
        final(out)@ == old(out)@ + extra@,
{
    let mut i: usize = 0;
    while i < extra.len()
        invariant
            i <= extra.len(),
            out@ == old(out)@ + extra@.subrange(0, i as int),
        decreases extra.len() - i,
    {
        out.push(extra[i].clone());
        i = i + 1;
        proof {
            assert(out@ =~= old(out)@ + extra@.subrange(0, i as int));
        }
    }
    proof {
        assert(out@ =~= old(out)@ + extra@);
    }
}

/// Merges one slot: if both sides provide a sequence the result is their
/// concatenation, common side first; a single present side is kept
/// unchanged; two absent sides yield an absent slot.  Neither input is
/// consumed or mutated.
pub fn merge_vecs(a: Option<&Vec<Step>>, b: Option<&Vec<Step>>) -> (r: Option<Vec<Step>>)
    ensures
        seq_of_opt(r) == merged_slot(seq_of_opt_ref(a), seq_of_opt_ref(b)),
{
    match (a, b) {
        (Some(x), Some(y)) => {
            let mut out = clone_steps(x);
            append_steps(&mut out, y);
            Some(out)
        }
        (Some(x), None) => Some(clone_steps(x)),
        (None, Some(y)) => Some(clone_steps(y)),
        (None, None) => None,
    }
}

fn phases_pre(p: Option<&Phases>) -> (r: Option<&Vec<Step>>)
    ensures
        seq_of_opt_ref(r) == slot_pre(opt_phases_view(p)),
{
    match p {
        Some(ph) => ph.pre.as_ref(),
        None => None,
    }
}

fn phases_main(p: Option<&Phases>) -> (r: Option<&Vec<Step>>)
    ensures
        seq_of_opt_ref(r) == slot_main(opt_phases_view(p)),
{
    match p {
        Some(ph) => ph.main.as_ref(),
        None => None,
    }
}

fn phases_post(p: Option<&Phases>) -> (r: Option<&Vec<Step>>)
    ensures
        seq_of_opt_ref(r) == slot_post(opt_phases_view(p)),
{
    match p {
        Some(ph) => ph.post.as_ref(),
        None => None,
    }
}

/// Combines a common phase set with a language-specific one.  For each of
/// the three slots independently, common steps come before the
/// language-specific steps; a slot absent on both sides stays absent.  The
/// inputs are borrowed and never mutated, so the same common set can be
/// merged against many language overrides.
pub fn merge_phases(common: Option<&Phases>, project: Option<&Phases>) -> (r: Phases)
    ensures
        r@ == spec_merge(opt_phases_view(common), opt_phases_view(project)),
{
    let r = Phases {
        pre: merge_vecs(phases_pre(common), phases_pre(project)),
        main: merge_vecs(phases_main(common), phases_main(project)),
        post: merge_vecs(phases_post(common), phases_post(project)),
    };
    proof {
        assert(r@ =~= spec_merge(opt_phases_view(common), opt_phases_view(project)));
    }
    r
}

/// Merging against an absent side is the identity: the present phase set
/// comes back unchanged, slot for slot.
pub proof fn lemma_merge_identity(x: PhasesView)
    ensures
        spec_merge(None, Some(x)) == x,
        spec_merge(Some(x), None) == x,
{
    assert(spec_merge(None, Some(x)) =~= x);
    assert(spec_merge(Some(x), None) =~= x);
}

/// Each slot of the merge is determined by the same slot of the two inputs
/// alone: steps in one slot can never leak into another slot of the result.
pub proof fn lemma_merge_slot_independence(
    c1: Option<PhasesView>,
    p1: Option<PhasesView>,
    c2: Option<PhasesView>,
    p2: Option<PhasesView>,
)
    ensures
        slot_pre(c1) == slot_pre(c2) && slot_pre(p1) == slot_pre(p2) ==> spec_merge(c1, p1).pre
            == spec_merge(c2, p2).pre,
        slot_main(c1) == slot_main(c2) && slot_main(p1) == slot_main(p2) ==> spec_merge(c1, p1).main
            == spec_merge(c2, p2).main,
        slot_post(c1) == slot_post(c2) && slot_post(p1) == slot_post(p2) ==> spec_merge(c1, p1).post
            == spec_merge(c2, p2).post,
{
}

/// A slot absent on both sides stays absent, while a slot that is present
/// but empty on both sides stays present and empty: merging never confuses
/// "no sequence" with "a sequence of zero steps".
pub proof fn lemma_merge_absent_vs_empty(c: Option<PhasesView>, p: Option<PhasesView>)
    ensures
        slot_pre(c) is None && slot_pre(p) is None ==> spec_merge(c, p).pre is None,
        slot_pre(c) == Some(Seq::<Step>::empty()) && slot_pre(p) == Some(Seq::<Step>::empty())
            ==> spec_merge(c, p).pre == Some(Seq::<Step>::empty()),
{
    if slot_pre(c) == Some(Seq::<Step>::empty()) && slot_pre(p) == Some(Seq::<Step>::empty()) {
        assert(Seq::<Step>::empty() + Seq::<Step>::empty() =~= Seq::<Step>::empty());
    }
}

/// The phase set that a common block contributes to every language.
#[derive(Debug, PartialEq, Eq)]
pub struct CommonSteps {
    pub phases: Phases,
}

impl View for CommonSteps {
    type V = PhasesView;

    open spec fn view(&self) -> PhasesView {
        self.phases@
    }
}

/// The per-language step definition of one action map entry: an optional
/// directory-name override and a phase set.
#[derive(Debug, PartialEq, Eq)]
pub struct ProjectSteps {
    pub dir: Option<String>,
    pub phases: Phases,
}

/// The mathematical value of a per-language step definition.
#[verifier::ext_equal]
pub struct ProjectStepsView {
    pub dir: Option<Seq<char>>,
    pub phases: PhasesView,
}

impl View for ProjectSteps {
    type V = ProjectStepsView;

    open spec fn view(&self) -> ProjectStepsView {
        ProjectStepsView { dir: opt_str_view(self.dir), phases: self.phases@ }
    }
}

/// The root configuration: the type table, an optional shell override, an
/// optional common phase set, and the two optional action maps.  The maps
/// are association lists in document order with unique keys.
#[derive(Debug, PartialEq, Eq)]
pub struct Config {
    pub types: Vec<(String, String)>,
    pub shell: Option<String>,
    pub common: Option<CommonSteps>,
    pub new: Option<Vec<(String, ProjectSteps)>>,
    pub clone: Option<Vec<(String, ProjectSteps)>>,
}

/// The common phase set a configuration carries, if any.
pub open spec fn common_view(c: Option<CommonSteps>) -> Option<PhasesView> {
    match c {
        Some(cs) => Some(cs@),
        None => None,
    }
}

/// No key occurs twice in an association list.
pub open spec fn keys_unique<T>(m: Seq<(String, T)>) -> bool {
    forall|i: int, j: int| 0 <= i < j < m.len() ==> m[i].0@ != m[j].0@
}

/// The first value bound to a key in an association list.
pub open spec fn find_entry<T>(entries: Seq<(String, T)>, key: Seq<char>) -> Option<T>
    decreases entries.len(),
{
    if entries.len() == 0 {
        None
    } else if entries[0].0@ == key {
        Some(entries[0].1)
    } else {
        find_entry(entries.skip(1), key)
    }
}

impl Config {
    /// A well-formed configuration has a non-empty type table and unique
    /// keys in every map.
    pub open spec fn wf(&self) -> bool {
        &&& self.types@.len() > 0
        &&& keys_unique(self.types@)
        &&& (self.new matches Some(m) ==> keys_unique(m@))
        &&& (self.clone matches Some(m) ==> keys_unique(m@))
    }
}

/// Looks a key up in an association list, returning the first binding.
pub fn find_pair<'a, T>(entries: &'a Vec<(String, T)>, key: &str) -> (r: Option<&'a T>)
    ensures
        match r {
            Some(v) => find_entry(entries@, key@) matches Some(x) && x == *v,
            None => find_entry(entries@, key@) is None,
        },
{
    let mut i: usize = 0;
    proof {
        assert(entries@.skip(0) =~= entries@);
    }
    while i < entries.len()
        invariant
            i <= entries@.len(),
            find_entry(entries@.skip(i as int), key@) == find_entry(entries@, key@),
        decreases entries@.len() - i,
    {
        proof {
            assert(entries@.skip(i as int)[0] == entries@[i as int]);
        }
        if str_eq(entries[i].0.as_str(), key) {
            return Some(&entries[i].1);
        }
        proof {
            assert(entries@.skip(i as int).skip(1) =~= entries@.skip(i as int + 1));
        }
        i = i + 1;
    }
    proof {
        assert(entries@.skip(i as int).len() == 0);
    }
    None
}

} // verus!
