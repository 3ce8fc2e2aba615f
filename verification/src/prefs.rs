//! Preference snapshots.
//!
//! The shell persists a small preference record opportunistically on every
//! change: the project roots, the expanded rows, the last selection, the
//! easy-mode flag and the font size. Reading and writing the preference
//! file, and its encoding, belong to the surrounding application; this
//! module owns what the record means: how it is taken from the state and
//! how a loaded record is applied back, including the font-size guard.
use vstd::prelude::*;
use crate::shell::{
    lemma_push_to_set, lemma_push_unique, unique_strings, ShellModel, ShellState,
};
use crate::paths::contains_string;
use crate::{MIN_FONT_SIZE, MAX_FONT_SIZE};

verus! {

/// The meaning of an optional path.
pub open spec fn option_string_view(o: Option<String>) -> Option<Seq<char>> {
    match o {
        Some(s) => Some(s@),
        None => None,
    }
}

/// The preference record the shell persists and resumes from.
pub struct Prefs {
    pub projects: Vec<String>,
    pub expansions: Vec<String>,
    pub selection: Option<String>,
    pub easy_mode: bool,
    pub font_size: i32,
}

/// The meaning of a [`Prefs`] record, with the path lists reduced to sets.
pub struct PrefsModel {
    pub projects: Set<Seq<char>>,
    pub expansions: Set<Seq<char>>,
    pub selection: Option<Seq<char>>,
    pub easy_mode: bool,
    pub font_size: int,
}

impl View for Prefs {
    type V = PrefsModel;

    open spec fn view(&self) -> PrefsModel {
        PrefsModel {
            projects: self.projects.deep_view().to_set(),
            expansions: self.expansions.deep_view().to_set(),
            selection: option_string_view(self.selection),
            easy_mode: self.easy_mode,
            font_size: self.font_size as int,
        }
    }
}

/// Copies a list of paths.
fn clone_string_vec(v: &Vec<String>) -> (r: Vec<String>)
    ensures
        r.deep_view() == v.deep_view(),
{
    let mut r: Vec<String> = Vec::new();
    let mut i: usize = 0;
    while i < v.len()
        invariant
            i <= v@.len(),
            r.deep_view() == v.deep_view().take(i as int),
        decreases v@.len() - i,
    {
        let ghost pre = r.deep_view();
        r.push(v[i].clone());
        proof {
            assert(r.deep_view() =~= pre.push(v.deep_view()[i as int]));
            assert(r.deep_view() =~= v.deep_view().take(i + 1));
        }
        i = i + 1;
    }
    proof {
        assert(v.deep_view().take(i as int) =~= v.deep_view());
    }
    r
}

/// Copies a list of paths, keeping the first occurrence of each.
fn dedup_strings(v: &Vec<String>) -> (r: Vec<String>)
    ensures
        unique_strings(r.deep_view()),
        r.deep_view().to_set() == v.deep_view().to_set(),
{
    let mut r: Vec<String> = Vec::new();
    let mut i: usize = 0;
    proof {
        assert(r.deep_view().to_set() =~= v.deep_view().take(0).to_set());
    }
    while i < v.len()
        invariant
            i <= v@.len(),
            unique_strings(r.deep_view()),
            r.deep_view().to_set() == v.deep_view().take(i as int).to_set(),
        decreases v@.len() - i,
    {
        let ghost pre = r.deep_view();
        proof {
            assert(v.deep_view().take(i + 1) =~= v.deep_view().take(i as int).push(
                v.deep_view()[i as int],
            ));
            lemma_push_to_set(v.deep_view().take(i as int), v.deep_view()[i as int]);
            assert(v@[i as int]@ == v.deep_view()[i as int]);
        }
        if !contains_string(&r, &v[i]) {
            r.push(v[i].clone());
            proof {
                assert(r.deep_view() =~= pre.push(v.deep_view()[i as int]));
                lemma_push_unique(pre, v.deep_view()[i as int]);
                lemma_push_to_set(pre, v.deep_view()[i as int]);
            }
        } else {
            proof {
                assert(pre.to_set().contains(v.deep_view()[i as int]));
                assert(pre.to_set() =~= pre.to_set().insert(v.deep_view()[i as int]));
            }
        }
        i = i + 1;
    }
    proof {
        assert(v.deep_view().take(i as int) =~= v.deep_view());
    }
    r
}

/// Takes the preference snapshot for `state`, the record that is written
/// out whenever a preference-bearing part of the state changes.
pub fn get_prefs(state: &ShellState) -> (p: Prefs)
    requires
        state.wf(),
    ensures
        p@.projects == state@.projects,
        p@.expansions == state@.expansions,
        p@.selection == state@.selection,
        p@.easy_mode == state@.easy_mode,
        p@.font_size == state@.font_size,
        unique_strings(p.projects.deep_view()),
        unique_strings(p.expansions.deep_view()),
{
    Prefs {
        projects: clone_string_vec(&state.projects),
        expansions: clone_string_vec(&state.expansions),
        selection: match &state.selection {
            Some(s) => Some(s.clone()),
            None => None,
        },
        easy_mode: state.easy_mode,
        font_size: state.font_size,
    }
}

/// Applies a loaded preference record to the state: the project roots,
/// expanded rows, selection and easy-mode flag are replaced outright; the
/// font size is taken only when it lies within the accepted bounds, and
/// kept as it was otherwise. The quit flag and the live builders are not
/// preferences and stay untouched.
pub fn apply_prefs(state: &mut ShellState, prefs: &Prefs)
    requires
        old(state).wf(),
    ensures
        final(state).wf(),
        final(state)@ == (ShellModel {
            projects: prefs@.projects,
            expansions: prefs@.expansions,
            selection: prefs@.selection,
            easy_mode: prefs@.easy_mode,
            font_size: if MIN_FONT_SIZE <= prefs@.font_size <= MAX_FONT_SIZE {
                prefs@.font_size
            } else {
                old(state)@.font_size
            },
            ..old(state)@
        }),
{
    state.projects = dedup_strings(&prefs.projects);
    state.expansions = dedup_strings(&prefs.expansions);
    state.selection = match &prefs.selection {
        Some(s) => Some(s.clone()),
        None => None,
    };
    state.easy_mode = prefs.easy_mode;
    if MIN_FONT_SIZE <= prefs.font_size && prefs.font_size <= MAX_FONT_SIZE {
        state.font_size = prefs.font_size;
    }
}

} // verus!
