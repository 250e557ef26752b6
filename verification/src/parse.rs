//! The configuration loader: turns a raw document tree into a typed,
//! validated configuration.
//!
//! The document arrives as a [`RawNode`] tree of plain values; everything
//! the loader decides — which of the three step shapes an entry matches,
//! which slots a phase object provides, whether the type table is
//! non-empty and every map keyed uniquely — is checked here.

use crate::config::{
    keys_unique, seq_of_opt, CommonSteps, Config, Phases, PhasesView, ProjectSteps,
    ProjectStepsView, Step,
};
use crate::config::find_entry;
use crate::error::PactError;
use crate::utils::{opt_str_view, str_eq};
use vstd::pervasive::arbitrary;
use vstd::prelude::*;

verus! {

/// One node of the raw configuration document: a scalar string, an ordered
/// sequence, a mapping in document order, an explicit null, or any other
/// scalar the document syntax offers but the configuration never uses.
#[derive(Debug, PartialEq, Eq)]
pub enum RawNode {
    Text(String),
    Sequence(Vec<RawNode>),
    Mapping(Vec<(String, RawNode)>),
    Null,
    Other,
}

pub open spec fn opt_raw_view(o: Option<&RawNode>) -> Option<RawNode> {
    match o {
        Some(n) => Some(*n),
        None => None,
    }
}

fn malformed_step() -> (e: PactError)
    ensures
        e is MalformedStep,
{
    PactError::MalformedStep("a step is neither a command string nor a known marker".to_owned())
}

fn parse_error(msg: &str) -> (e: PactError)
    ensures
        e is ConfigParse,
{
    PactError::ConfigParse(msg.to_owned())
}

/// The step a raw entry stands for: a bare string is a command, and a
/// one-entry mapping whose single key is `clone` or `git_init` with a null
/// value is the matching marker.  Anything else is no step at all.
pub open spec fn spec_parse_step(n: RawNode) -> Option<Step> {
    match n {
        RawNode::Text(s) => Some(Step::Cmd(s)),
        RawNode::Mapping(entries) => {
            if entries@.len() == 1 && entries@[0].1 is Null {
                if entries@[0].0@ == "clone"@ {
                    Some(Step::CloneMarker)
                } else if entries@[0].0@ == "git_init"@ {
                    Some(Step::GitInitMarker)
                } else {
                    None
                }
            } else {
                None
            }
        },
        _ => None,
    }
}

/// Parses one step entry; an entry that matches none of the three step
/// shapes is rejected as a malformed step.
pub fn parse_step(n: &RawNode) -> (r: Result<Step, PactError>)
    ensures
        spec_parse_step(*n) matches Some(st) ==> (r matches Ok(x) && x == st),
        spec_parse_step(*n) is None ==> (r matches Err(e) && e is MalformedStep),
{
    match n {
        RawNode::Text(s) => Ok(Step::Cmd(s.clone())),
        RawNode::Mapping(entries) => {
            if entries.len() == 1 {
                let entry = &entries[0];
                let value_is_null = match &entry.1 {
                    RawNode::Null => true,
                    _ => false,
                };
                if value_is_null && str_eq(entry.0.as_str(), "clone") {
                    Ok(Step::CloneMarker)
                } else if value_is_null && str_eq(entry.0.as_str(), "git_init") {
                    Ok(Step::GitInitMarker)
                } else {
                    Err(malformed_step())
                }
            } else {
                Err(malformed_step())
            }
        },
        _ => Err(malformed_step()),
    }
}

pub open spec fn all_steps_ok(s: Seq<RawNode>) -> bool {
    forall|i: int| 0 <= i < s.len() ==> (#[trigger] spec_parse_step(s[i])) is Some
}

/// The steps of a raw sequence, in order.
pub open spec fn steps_of(s: Seq<RawNode>) -> Seq<Step> {
    s.map_values(|n: RawNode| spec_parse_step(n)->0)
}

/// Parses an ordered sequence of step entries, keeping their order; the
/// first malformed entry rejects the whole sequence.
pub fn parse_steps(nodes: &Vec<RawNode>) -> (r: Result<Vec<Step>, PactError>)
    ensures
        all_steps_ok(nodes@) ==> (r matches Ok(v) && v@ == steps_of(nodes@)),
        !all_steps_ok(nodes@) ==> (r matches Err(e) && e is MalformedStep),
{
    let mut out: Vec<Step> = Vec::new();
    let mut i: usize = 0;
    proof {
        assert(out@ =~= steps_of(nodes@.take(0)));
    }
    while i < nodes.len()
        invariant
            i <= nodes@.len(),
            forall|j: int| 0 <= j < i ==> (#[trigger] spec_parse_step(nodes@[j])) is Some,
            out@ == steps_of(nodes@.take(i as int)),
        decreases nodes@.len() - i,
    {
        match parse_step(&nodes[i]) {
            Ok(st) => {
                out.push(st);
            },
            Err(e) => {
                return Err(e);
            },
        }
        i = i + 1;
        proof {
            assert(out@ =~= steps_of(nodes@.take(i as int)));
        }
    }
    proof {
        assert(nodes@.take(i as int) =~= nodes@);
    }
    Ok(out)
}

/// A present slot whose node is neither a sequence nor null has the wrong
/// shape for a phase.
pub open spec fn slot_shape_bad(o: Option<RawNode>) -> bool {
    o matches Some(n) && !(n is Null) && !(n is Sequence)
}

/// A present sequence slot that contains a malformed step entry.
pub open spec fn slot_step_bad(o: Option<RawNode>) -> bool {
    o matches Some(n) && n matches RawNode::Sequence(l) && !all_steps_ok(l@)
}

pub open spec fn slot_ok(o: Option<RawNode>) -> bool {
    !slot_shape_bad(o) && !slot_step_bad(o)
}

/// The step sequence a slot contributes: absent or null contributes
/// nothing, a raw sequence contributes its steps.
pub open spec fn slot_steps(o: Option<RawNode>) -> Option<Seq<Step>> {
    match o {
        Some(n) => match n {
            RawNode::Sequence(l) => Some(steps_of(l@)),
            _ => None,
        },
        None => None,
    }
}

fn parse_slot(o: Option<&RawNode>) -> (r: Result<Option<Vec<Step>>, PactError>)
    ensures
        slot_ok(opt_raw_view(o)) ==> (r matches Ok(s) && seq_of_opt(s) == slot_steps(
            opt_raw_view(o),
        )),
        slot_shape_bad(opt_raw_view(o)) ==> (r matches Err(e) && e is ConfigParse),
        slot_step_bad(opt_raw_view(o)) ==> (r matches Err(e) && e is MalformedStep),
{
    match o {
        None => Ok(None),
        Some(RawNode::Null) => Ok(None),
        Some(RawNode::Sequence(list)) => match parse_steps(list) {
            Ok(v) => Ok(Some(v)),
            Err(e) => Err(e),
        },
        Some(_) => Err(parse_error("a phase must be a sequence of steps")),
    }
}

pub open spec fn pre_entry(e: Seq<(String, RawNode)>) -> Option<RawNode> {
    find_entry(e, "pre"@)
}

pub open spec fn main_entry(e: Seq<(String, RawNode)>) -> Option<RawNode> {
    find_entry(e, "main"@)
}

pub open spec fn post_entry(e: Seq<(String, RawNode)>) -> Option<RawNode> {
    find_entry(e, "post"@)
}

pub open spec fn phases_entries_ok(e: Seq<(String, RawNode)>) -> bool {
    slot_ok(pre_entry(e)) && slot_ok(main_entry(e)) && slot_ok(post_entry(e))
}

/// The phase set a raw mapping describes through its `pre`, `main` and
/// `post` keys; other keys of the mapping do not take part.
pub open spec fn phases_of_entries(e: Seq<(String, RawNode)>) -> PhasesView {
    PhasesView {
        pre: slot_steps(pre_entry(e)),
        main: slot_steps(main_entry(e)),
        post: slot_steps(post_entry(e)),
    }
}

/// The error kind a bad slot produces: the wrong shape is a parse error, a
/// bad step entry is a malformed step.
pub open spec fn slot_error_matches(o: Option<RawNode>, err: PactError) -> bool {
    &&& slot_shape_bad(o) ==> err is ConfigParse
    &&& slot_step_bad(o) ==> err is MalformedStep
}

/// Which slot's failure a phase parse reports: the slots are examined in
/// `pre`, `main`, `post` order and the first bad one decides.
pub open spec fn phases_error_matches(e: Seq<(String, RawNode)>, err: PactError) -> bool {
    if !slot_ok(pre_entry(e)) {
        slot_error_matches(pre_entry(e), err)
    } else if !slot_ok(main_entry(e)) {
        slot_error_matches(main_entry(e), err)
    } else {
        slot_error_matches(post_entry(e), err)
    }
}

/// Parses the three phase slots out of a raw mapping's entries.
pub fn parse_phases(entries: &Vec<(String, RawNode)>) -> (r: Result<Phases, PactError>)
    ensures
        phases_entries_ok(entries@) <==> r is Ok,
        r matches Ok(p) ==> p@ == phases_of_entries(entries@),
        r matches Err(err) ==> phases_error_matches(entries@, err),
{
    let pre = match parse_slot(find_pair_node(entries, "pre")) {
        Ok(v) => v,
        Err(e) => return Err(e),
    };
    let main = match parse_slot(find_pair_node(entries, "main")) {
        Ok(v) => v,
        Err(e) => return Err(e),
    };
    let post = match parse_slot(find_pair_node(entries, "post")) {
        Ok(v) => v,
        Err(e) => return Err(e),
    };
    let p = Phases { pre, main, post };
    proof {
        assert(p@ =~= phases_of_entries(entries@));
    }
    Ok(p)
}

/// Looks a key up among a raw mapping's entries.
fn find_pair_node<'a>(entries: &'a Vec<(String, RawNode)>, key: &str) -> (r: Option<&'a RawNode>)
    ensures
        opt_raw_view(r) == find_entry(entries@, key@),
{
    let r = crate::config::find_pair(entries, key);
    proof {
        match r {
            Some(v) => {
                assert(find_entry(entries@, key@) matches Some(x) && x == *v);
            },
            None => {},
        }
    }
    r
}

/// An optional entry that must be a string when it is present at all;
/// null counts as absent.
pub open spec fn text_entry_ok(o: Option<RawNode>) -> bool {
    match o {
        None => true,
        Some(n) => n is Text || n is Null,
    }
}

/// The string such an entry carries, if any.
pub open spec fn text_entry_of(o: Option<RawNode>) -> Option<String> {
    match o {
        Some(RawNode::Text(s)) => Some(s),
        _ => None,
    }
}

fn parse_text_entry(o: Option<&RawNode>, what: &str) -> (r: Result<Option<String>, PactError>)
    ensures
        text_entry_ok(opt_raw_view(o)) <==> r is Ok,
        r matches Ok(s) ==> s == text_entry_of(opt_raw_view(o)),
        r matches Err(e) ==> e is ConfigParse,
{
    match o {
        None => Ok(None),
        Some(RawNode::Null) => Ok(None),
        Some(RawNode::Text(s)) => Ok(Some(s.clone())),
        Some(_) => Err(parse_error(what)),
    }
}

pub open spec fn dir_entry(e: Seq<(String, RawNode)>) -> Option<RawNode> {
    find_entry(e, "dir"@)
}

/// A per-language entry must be a mapping with a string (or absent) `dir`
/// and three well-shaped phase slots.
pub open spec fn project_steps_ok(n: RawNode) -> bool {
    n matches RawNode::Mapping(e) && text_entry_ok(dir_entry(e@)) && phases_entries_ok(e@)
}

/// The per-language step definition a raw mapping describes.
pub open spec fn project_steps_view(n: RawNode) -> ProjectStepsView
    recommends
        project_steps_ok(n),
{
    match n {
        RawNode::Mapping(e) => ProjectStepsView {
            dir: opt_str_view(text_entry_of(dir_entry(e@))),
            phases: phases_of_entries(e@),
        },
        _ => arbitrary(),
    }
}

/// Which failure a per-language entry reports: a non-mapping or a bad
/// `dir` is a parse error; otherwise the first bad phase slot decides.
pub open spec fn project_steps_error_matches(n: RawNode, err: PactError) -> bool {
    match n {
        RawNode::Mapping(e) => {
            if !text_entry_ok(dir_entry(e@)) {
                err is ConfigParse
            } else {
                phases_error_matches(e@, err)
            }
        },
        _ => err is ConfigParse,
    }
}

/// Parses one per-language entry: its optional directory override and its
/// phase slots.
pub fn parse_project_steps(n: &RawNode) -> (r: Result<ProjectSteps, PactError>)
    ensures
        project_steps_ok(*n) <==> r is Ok,
        r matches Ok(p) ==> p@ == project_steps_view(*n),
        r matches Err(err) ==> project_steps_error_matches(*n, err),
{
    match n {
        RawNode::Mapping(entries) => {
            let dir = match parse_text_entry(
                find_pair_node(entries, "dir"),
                "dir must be a string",
            ) {
                Ok(d) => d,
                Err(e) => return Err(e),
            };
            let phases = match parse_phases(entries) {
                Ok(p) => p,
                Err(e) => return Err(e),
            };
            Ok(ProjectSteps { dir, phases })
        },
        _ => Err(parse_error("a language entry must be a mapping")),
    }
}

/// A language map must key each language once and give each a well-formed
/// per-language entry.
pub open spec fn lang_entries_ok(e: Seq<(String, RawNode)>) -> bool {
    keys_unique(e) && forall|i: int| 0 <= i < e.len() ==> project_steps_ok(#[trigger] e[i].1)
}

pub open spec fn lang_map_ok(n: RawNode) -> bool {
    n matches RawNode::Mapping(e) && lang_entries_ok(e@)
}

/// The parsed language map keeps every key in document order and parses
/// every entry.
pub open spec fn lang_map_matches(
    e: Seq<(String, RawNode)>,
    m: Seq<(String, ProjectSteps)>,
) -> bool {
    &&& m.len() == e.len()
    &&& forall|i: int|
        0 <= i < e.len() ==> (#[trigger] m[i]).0 == e[i].0 && m[i].1@ == project_steps_view(
            e[i].1,
        )
}

/// Which failure a language map reports, examining its entries in order:
/// a repeated key is a parse error, otherwise the entry's own failure.
pub open spec fn lang_entries_error_matches(
    e: Seq<(String, RawNode)>,
    i: int,
    err: PactError,
) -> bool
    decreases e.len() - i,
{
    if i < 0 || i >= e.len() {
        true
    } else if exists|j: int| 0 <= j < i && (#[trigger] e[j].0)@ == e[i].0@ {
        err is ConfigParse
    } else if !project_steps_ok(e[i].1) {
        project_steps_error_matches(e[i].1, err)
    } else {
        lang_entries_error_matches(e, i + 1, err)
    }
}

pub open spec fn lang_map_error_matches(n: RawNode, err: PactError) -> bool {
    match n {
        RawNode::Mapping(e) => lang_entries_error_matches(e@, 0, err),
        _ => err is ConfigParse,
    }
}

proof fn lemma_lang_err_lift(e: Seq<(String, RawNode)>, i: int, err: PactError)
    requires
        0 <= i <= e.len(),
        forall|j: int, k: int| 0 <= k < j < i ==> (#[trigger] e[k].0)@ != (#[trigger] e[j].0)@,
        forall|j: int| 0 <= j < i ==> project_steps_ok(#[trigger] e[j].1),
        lang_entries_error_matches(e, i, err),
    ensures
        lang_entries_error_matches(e, 0, err),
    decreases i,
{
    if i > 0 {
        assert(lang_entries_error_matches(e, i - 1, err));
        lemma_lang_err_lift(e, i - 1, err);
    }
}

/// Whether some earlier entry of an association list binds the same key.
proof fn lemma_find_entry_exists<T>(entries: Seq<(String, T)>, key: Seq<char>)
    ensures
        (find_entry(entries, key) is Some) <==> (exists|j: int|
            0 <= j < entries.len() && (#[trigger] entries[j].0)@ == key),
    decreases entries.len(),
{
    if entries.len() > 0 {
        lemma_find_entry_exists(entries.skip(1), key);
        if entries[0].0@ == key {
        } else {
            if find_entry(entries, key) is Some {
                let j = choose|j: int|
                    0 <= j < entries.skip(1).len() && (#[trigger] entries.skip(1)[j].0)@ == key;
                assert(entries[j + 1].0@ == key);
            }
            if exists|j: int| 0 <= j < entries.len() && (#[trigger] entries[j].0)@ == key {
                let j = choose|j: int|
                    0 <= j < entries.len() && (#[trigger] entries[j].0)@ == key;
                assert(j >= 1);
                assert(entries.skip(1)[j - 1].0@ == key);
            }
        }
    }
}

/// Parses a language map, rejecting repeated keys and keeping document
/// order.
pub fn parse_lang_map(n: &RawNode) -> (r: Result<Vec<(String, ProjectSteps)>, PactError>)
    ensures
        lang_map_ok(*n) <==> r is Ok,
        r matches Ok(m) ==> (*n matches RawNode::Mapping(e) && lang_map_matches(e@, m@)),
        r matches Ok(m) ==> keys_unique(m@),
        r matches Err(err) ==> lang_map_error_matches(*n, err),
{
    match n {
        RawNode::Mapping(entries) => {
            let ghost e = entries@;
            proof {
                assert(*n matches RawNode::Mapping(v) && v@ == e);
            }
            let mut out: Vec<(String, ProjectSteps)> = Vec::new();
            let mut i: usize = 0;
            while i < entries.len()
                invariant
                    i <= e.len(),
                    e == entries@,
                    *n matches RawNode::Mapping(nv) && nv@ == e,
                    out@.len() == i,
                    forall|j: int|
                        0 <= j < i ==> (#[trigger] out@[j]).0 == e[j].0 && out@[j].1@
                            == project_steps_view(e[j].1),
                    forall|j: int, k: int|
                        0 <= k < j < i ==> (#[trigger] e[k].0)@ != (#[trigger] e[j].0)@,
                    forall|j: int| 0 <= j < i ==> project_steps_ok(#[trigger] e[j].1),
                decreases e.len() - i,
            {
                let entry = &entries[i];
                proof {
                    lemma_find_entry_exists(out@, entry.0@);
                }
                if crate::config::find_pair(&out, entry.0.as_str()).is_some() {
                    let err = parse_error("a language is listed twice");
                    proof {
                        let j = choose|j: int|
                            0 <= j < out@.len() && (#[trigger] out@[j].0)@ == e[i as int].0@;
                        assert(out@[j].0 == e[j].0);
                        assert(e[j].0@ == e[i as int].0@);
                        assert(!keys_unique(e));
                        assert(lang_entries_error_matches(e, i as int, err));
                        lemma_lang_err_lift(e, i as int, err);
                    }
                    return Err(err);
                }
                proof {
                    let ghost key = e[i as int].0@;
                    assert forall|k: int| 0 <= k < i implies (#[trigger] e[k].0)@ != key by {
                        assert(out@[k].0 == e[k].0);
                    }
                }
                match parse_project_steps(&entry.1) {
                    Ok(p) => {
                        out.push((entry.0.clone(), p));
                    },
                    Err(err) => {
                        proof {
                            assert(!project_steps_ok(e[i as int].1));
                            assert(!lang_entries_ok(e));
                            assert(lang_entries_error_matches(e, i as int, err));
                            lemma_lang_err_lift(e, i as int, err);
                        }
                        return Err(err);
                    },
                }
                i = i + 1;
            }
            proof {
                assert forall|a: int, b: int|
                    0 <= a < b < out@.len() implies (#[trigger] out@[a].0)@ != (
                    #[trigger] out@[b].0)@ by {
                    assert(out@[a].0 == e[a].0);
                    assert(out@[b].0 == e[b].0);
                }
            }
            Ok(out)
        },
        _ => Err(parse_error("an action map must be a mapping")),
    }
}

/// The string each type-table value carries.
pub open spec fn text_of(n: RawNode) -> String
    recommends
        n is Text,
{
    match n {
        RawNode::Text(s) => s,
        _ => arbitrary(),
    }
}

/// The type table must be a non-empty mapping from unique identifiers to
/// strings.
pub open spec fn types_entries_ok(e: Seq<(String, RawNode)>) -> bool {
    e.len() > 0 && keys_unique(e) && forall|i: int| 0 <= i < e.len() ==> (#[trigger] e[i].1)
        is Text
}

pub open spec fn types_map_ok(n: RawNode) -> bool {
    n matches RawNode::Mapping(e) && types_entries_ok(e@)
}

pub open spec fn types_map_matches(e: Seq<(String, RawNode)>, v: Seq<(String, String)>) -> bool {
    &&& v.len() == e.len()
    &&& forall|i: int|
        0 <= i < e.len() ==> (#[trigger] v[i]).0 == e[i].0 && v[i].1 == text_of(e[i].1)
}

/// Parses the type table; every failure here is a parse error.
pub fn parse_types(n: &RawNode) -> (r: Result<Vec<(String, String)>, PactError>)
    ensures
        types_map_ok(*n) <==> r is Ok,
        r matches Ok(v) ==> (*n matches RawNode::Mapping(e) && types_map_matches(e@, v@)),
        r matches Ok(v) ==> keys_unique(v@) && v@.len() > 0,
        r matches Err(err) ==> err is ConfigParse,
{
    match n {
        RawNode::Mapping(entries) => {
            let ghost e = entries@;
            proof {
                assert(*n matches RawNode::Mapping(v) && v@ == e);
            }
            if entries.len() == 0 {
                return Err(parse_error("the types table must not be empty"));
            }
            let mut out: Vec<(String, String)> = Vec::new();
            let mut i: usize = 0;
            while i < entries.len()
                invariant
                    i <= e.len(),
                    e == entries@,
                    *n matches RawNode::Mapping(nv) && nv@ == e,
                    out@.len() == i,
                    forall|j: int|
                        0 <= j < i ==> (#[trigger] out@[j]).0 == e[j].0 && out@[j].1 == text_of(
                            e[j].1,
                        ),
                    forall|j: int, k: int|
                        0 <= k < j < i ==> (#[trigger] e[k].0)@ != (#[trigger] e[j].0)@,
                    forall|j: int| 0 <= j < i ==> (#[trigger] e[j].1) is Text,
                decreases e.len() - i,
            {
                let entry = &entries[i];
                proof {
                    lemma_find_entry_exists(out@, entry.0@);
                }
                if crate::config::find_pair(&out, entry.0.as_str()).is_some() {
                    proof {
                        let j = choose|j: int|
                            0 <= j < out@.len() && (#[trigger] out@[j].0)@ == e[i as int].0@;
                        assert(out@[j].0 == e[j].0);
                        assert(e[j].0@ == e[i as int].0@);
                        assert(!keys_unique(e));
                    }
                    return Err(parse_error("a project type is listed twice"));
                }
                proof {
                    let ghost key = e[i as int].0@;
                    assert forall|k: int| 0 <= k < i implies (#[trigger] e[k].0)@ != key by {
                        assert(out@[k].0 == e[k].0);
                    }
                }
                match &entry.1 {
                    RawNode::Text(s) => {
                        out.push((entry.0.clone(), s.clone()));
                    },
                    _ => {
                        proof {
                            assert(!(e[i as int].1 is Text));
                            assert(!types_entries_ok(e));
                        }
                        return Err(parse_error("a type alias must be a string"));
                    },
                }
                i = i + 1;
            }
            proof {
                assert forall|a: int, b: int|
                    0 <= a < b < out@.len() implies (#[trigger] out@[a].0)@ != (
                    #[trigger] out@[b].0)@ by {
                    assert(out@[a].0 == e[a].0);
                    assert(out@[b].0 == e[b].0);
                }
            }
            Ok(out)
        },
        _ => Err(parse_error("the types table must be a mapping")),
    }
}

/// An optional `common` section must be a mapping of phase slots (or null).
pub open spec fn common_entry_ok(o: Option<RawNode>) -> bool {
    match o {
        None => true,
        Some(n) => match n {
            RawNode::Null => true,
            RawNode::Mapping(ce) => phases_entries_ok(ce@),
            _ => false,
        },
    }
}

/// The common phase set such a section contributes, if any.
pub open spec fn common_of(o: Option<RawNode>) -> Option<PhasesView> {
    match o {
        Some(RawNode::Mapping(ce)) => Some(phases_of_entries(ce@)),
        _ => None,
    }
}

pub open spec fn common_error_matches(o: Option<RawNode>, err: PactError) -> bool {
    match o {
        Some(n) => match n {
            RawNode::Mapping(ce) => phases_error_matches(ce@, err),
            RawNode::Null => true,
            _ => err is ConfigParse,
        },
        None => true,
    }
}

/// An optional action map section must be a language map (or null).
pub open spec fn action_entry_ok(o: Option<RawNode>) -> bool {
    match o {
        None => true,
        Some(n) => n is Null || lang_map_ok(n),
    }
}

/// How a parsed action map field corresponds to its raw section: absent or
/// null stays absent, and a raw mapping parses entry for entry.
pub open spec fn action_result_matches(
    o: Option<RawNode>,
    f: Option<Vec<(String, ProjectSteps)>>,
) -> bool {
    match o {
        None => f is None,
        Some(n) => if n is Null {
            f is None
        } else {
            f matches Some(m) && n matches RawNode::Mapping(le) && lang_map_matches(le@, m@)
        },
    }
}

pub open spec fn action_error_matches(o: Option<RawNode>, err: PactError) -> bool {
    match o {
        Some(n) => if n is Null {
            true
        } else {
            lang_map_error_matches(n, err)
        },
        None => true,
    }
}

fn parse_action_map(o: Option<&RawNode>) -> (r: Result<
    Option<Vec<(String, ProjectSteps)>>,
    PactError,
>)
    ensures
        action_entry_ok(opt_raw_view(o)) <==> r is Ok,
        r matches Ok(f) ==> action_result_matches(opt_raw_view(o), f),
        r matches Ok(f) ==> (f matches Some(m) ==> keys_unique(m@)),
        r matches Err(err) ==> action_error_matches(opt_raw_view(o), err),
{
    match o {
        None => Ok(None),
        Some(RawNode::Null) => Ok(None),
        Some(n) => match parse_lang_map(n) {
            Ok(m) => Ok(Some(m)),
            Err(e) => Err(e),
        },
    }
}

pub open spec fn types_section(e: Seq<(String, RawNode)>) -> Option<RawNode> {
    find_entry(e, "types"@)
}

pub open spec fn shell_section(e: Seq<(String, RawNode)>) -> Option<RawNode> {
    find_entry(e, "shell"@)
}

pub open spec fn common_section(e: Seq<(String, RawNode)>) -> Option<RawNode> {
    find_entry(e, "common"@)
}

pub open spec fn new_section(e: Seq<(String, RawNode)>) -> Option<RawNode> {
    find_entry(e, "new"@)
}

pub open spec fn clone_section(e: Seq<(String, RawNode)>) -> Option<RawNode> {
    find_entry(e, "clone"@)
}

/// A raw document describes a configuration when its root is a mapping, a
/// valid type table is present, and every optional section is well-shaped.
pub open spec fn config_sections_ok(e: Seq<(String, RawNode)>) -> bool {
    &&& types_section(e) matches Some(t) && types_map_ok(t)
    &&& text_entry_ok(shell_section(e))
    &&& common_entry_ok(common_section(e))
    &&& action_entry_ok(new_section(e))
    &&& action_entry_ok(clone_section(e))
}

pub open spec fn config_ok(root: RawNode) -> bool {
    root matches RawNode::Mapping(e) && config_sections_ok(e@)
}

/// How a parsed configuration corresponds to the raw document, section by
/// section.
pub open spec fn config_matches(e: Seq<(String, RawNode)>, c: Config) -> bool {
    &&& types_section(e) matches Some(t) && t matches RawNode::Mapping(te) && types_map_matches(
        te@,
        c.types@,
    )
    &&& c.shell == text_entry_of(shell_section(e))
    &&& crate::config::common_view(c.common) == common_of(common_section(e))
    &&& action_result_matches(new_section(e), c.new)
    &&& action_result_matches(clone_section(e), c.clone)
}

/// Which section's failure the loader reports, in the order the sections
/// are examined.
pub open spec fn config_error_matches(root: RawNode, err: PactError) -> bool {
    match root {
        RawNode::Mapping(e) => {
            if !(types_section(e@) matches Some(t) && types_map_ok(t)) {
                err is ConfigParse
            } else if !text_entry_ok(shell_section(e@)) {
                err is ConfigParse
            } else if !common_entry_ok(common_section(e@)) {
                common_error_matches(common_section(e@), err)
            } else if !action_entry_ok(new_section(e@)) {
                action_error_matches(new_section(e@), err)
            } else {
                action_error_matches(clone_section(e@), err)
            }
        },
        _ => err is ConfigParse,
    }
}

/// Parses a whole raw configuration document.  On success the result is
/// well-formed: the type table is non-empty and every map keyed uniquely.
pub fn parse_config(root: &RawNode) -> (r: Result<Config, PactError>)
    ensures
        config_ok(*root) <==> r is Ok,
        r matches Ok(c) ==> (*root matches RawNode::Mapping(e) && config_matches(e@, c)),
        r matches Ok(c) ==> c.wf(),
        r matches Err(err) ==> config_error_matches(*root, err),
{
    match root {
        RawNode::Mapping(entries) => {
            let types = match find_pair_node(entries, "types") {
                None => return Err(parse_error("the types table is missing")),
                Some(t) => match parse_types(t) {
                    Ok(v) => v,
                    Err(e) => return Err(e),
                },
            };
            let shell = match parse_text_entry(
                find_pair_node(entries, "shell"),
                "shell must be a string",
            ) {
                Ok(s) => s,
                Err(e) => return Err(e),
            };
            let common = match find_pair_node(entries, "common") {
                None => None,
                Some(RawNode::Null) => None,
                Some(RawNode::Mapping(ce)) => match parse_phases(ce) {
                    Ok(p) => Some(CommonSteps { phases: p }),
                    Err(e) => return Err(e),
                },
                Some(_) => return Err(parse_error("common must be a mapping")),
            };
            let new = match parse_action_map(find_pair_node(entries, "new")) {
                Ok(f) => f,
                Err(e) => return Err(e),
            };
            let clone = match parse_action_map(find_pair_node(entries, "clone")) {
                Ok(f) => f,
                Err(e) => return Err(e),
            };
            Ok(Config { types, shell, common, new, clone })
        },
        _ => Err(parse_error("the configuration root must be a mapping")),
    }
}

} // verus!
