//! The shell's core state.
//!
//! Every GUI callback and every event-loop tick works against one
//! [`ShellState`]: the set of known project roots, the set of expanded tree
//! rows, the last selection, the easy-mode flag, the font size, the quit
//! flag, and the builder registry. All of it is touched only from the
//! event-loop thread; the GUI holds no copy of it.
use vstd::prelude::*;
use crate::registry::{BuilderModel, BuilderRegistry};
use crate::paths::{contains_string, parent_of, parent_path, is_project_path};
use crate::{MIN_FONT_SIZE, MAX_FONT_SIZE, DEFAULT_FONT_SIZE};

verus! {

/// The shell state the event loop owns.
pub struct ShellState {
    /// Paths the user registered as build roots; a set, never scanned.
    pub projects: Vec<String>,
    /// Paths of tree rows the user expanded.
    pub expansions: Vec<String>,
    /// The path last reported selected, from the tree or the editor.
    pub selection: Option<String>,
    /// Whether the editor runs in easy mode.
    pub easy_mode: bool,
    /// The font size applied to the editor terminal and broadcast to
    /// builder terminals.
    pub font_size: i32,
    /// Set once the editor quit or the IPC channel reached its end; the
    /// event loop exits on it.
    pub quit: bool,
    /// The live builders.
    pub registry: BuilderRegistry,
}

/// The meaning of a [`ShellState`], with paths reduced to character
/// sequences and the path collections to sets.
pub struct ShellModel {
    pub projects: Set<Seq<char>>,
    pub expansions: Set<Seq<char>>,
    pub selection: Option<Seq<char>>,
    pub easy_mode: bool,
    pub font_size: int,
    pub quit: bool,
    pub builders: Map<Seq<char>, BuilderModel>,
}

impl View for ShellState {
    type V = ShellModel;

    open spec fn view(&self) -> ShellModel {
        ShellModel {
            projects: self.projects.deep_view().to_set(),
            expansions: self.expansions.deep_view().to_set(),
            selection: match self.selection {
                Some(s) => Some(s@),
                None => None,
            },
            easy_mode: self.easy_mode,
            font_size: self.font_size as int,
            quit: self.quit,
            builders: self.registry@,
        }
    }
}

/// No two entries of `s` are equal strings.
pub open spec fn unique_strings(s: Seq<Seq<char>>) -> bool {
    forall|i: int, j: int| 0 <= i < j < s.len() ==> s[i] != s[j]
}

pub(crate) proof fn lemma_push_to_set(s: Seq<Seq<char>>, x: Seq<char>)
    ensures
        s.push(x).to_set() =~= s.to_set().insert(x),
{
    let t = s.push(x);
    assert forall|q: Seq<char>| t.to_set().contains(q) implies s.to_set().insert(x).contains(
        q,
    ) by {
        let i = choose|i: int| 0 <= i < t.len() && t[i] == q;
        if i < s.len() {
            assert(s[i] == q);
        }
    }
    assert forall|q: Seq<char>| s.to_set().insert(x).contains(q) implies t.to_set().contains(
        q,
    ) by {
        if q == x {
            assert(t[s.len() as int] == q);
        } else {
            let i = choose|i: int| 0 <= i < s.len() && s[i] == q;
            assert(t[i] == q);
        }
    }
}

pub(crate) proof fn lemma_push_unique(s: Seq<Seq<char>>, x: Seq<char>)
    requires
        unique_strings(s),
        !s.contains(x),
    ensures
        unique_strings(s.push(x)),
{
    let t = s.push(x);
    assert forall|a: int, b: int| 0 <= a < b < t.len() implies t[a] != t[b] by {
        if b < s.len() {
            assert(t[a] == s[a] && t[b] == s[b]);
        } else {
            assert(t[a] == s[a] && t[b] == x);
        }
    }
}

pub(crate) proof fn lemma_remove_to_set(s: Seq<Seq<char>>, i: int)
    requires
        unique_strings(s),
        0 <= i < s.len(),
    ensures
        unique_strings(s.remove(i)),
        s.remove(i).to_set() =~= s.to_set().remove(s[i]),
{
    let t = s.remove(i);
    assert forall|a: int, b: int| 0 <= a < b < t.len() implies t[a] != t[b] by {
        assert(t[a] == (if a < i {
            s[a]
        } else {
            s[a + 1]
        }));
        assert(t[b] == (if b < i {
            s[b]
        } else {
            s[b + 1]
        }));
    }
    assert forall|q: Seq<char>| t.to_set().contains(q) implies s.to_set().remove(s[i]).contains(
        q,
    ) by {
        let x = choose|x: int| 0 <= x < t.len() && t[x] == q;
        if x < i {
            assert(s[x] == q);
        } else {
            assert(s[x + 1] == q);
        }
    }
    assert forall|q: Seq<char>| s.to_set().remove(s[i]).contains(q) implies t.to_set().contains(
        q,
    ) by {
        let x = choose|x: int| 0 <= x < s.len() && s[x] == q;
        if x < i {
            assert(t[x] == q);
        } else {
            assert(x != i);
            assert(t[x - 1] == q);
        }
    }
}

impl ShellState {
    /// The state keeps itself in shape: the path collections hold no
    /// duplicates, the font size stays within its bounds, and the registry
    /// is in shape.
    pub open spec fn wf(&self) -> bool {
        &&& unique_strings(self.projects.deep_view())
        &&& unique_strings(self.expansions.deep_view())
        &&& MIN_FONT_SIZE <= self.font_size <= MAX_FONT_SIZE
        &&& self.registry.wf()
    }

    /// Creates the state a shell starts with: no projects, no expansions,
    /// no selection, easy mode on, the default font size, not quitting,
    /// and an empty registry.
    pub fn new() -> (r: ShellState)
        ensures
            r.wf(),
            r@.projects == Set::<Seq<char>>::empty(),
            r@.expansions == Set::<Seq<char>>::empty(),
            r@.selection is None,
            r@.easy_mode,
            r@.font_size == DEFAULT_FONT_SIZE as int,
            !r@.quit,
            r@.builders == Map::<Seq<char>, BuilderModel>::empty(),
            r.registry.terminal_counter() == 0,
    {
        let r = ShellState {
            projects: Vec::new(),
            expansions: Vec::new(),
            selection: None,
            easy_mode: true,
            font_size: DEFAULT_FONT_SIZE,
            quit: false,
            registry: BuilderRegistry::new(),
        };
        proof {
            assert(r@.projects =~= Set::<Seq<char>>::empty());
            assert(r@.expansions =~= Set::<Seq<char>>::empty());
        }
        r
    }

    /// Registers `path` as a project root; registering it again changes
    /// nothing. Only user actions reach this, never a scan.
    pub fn add_project(&mut self, path: &String)
        requires
            old(self).wf(),
        ensures
            final(self).wf(),
            final(self)@ == (ShellModel {
                projects: old(self)@.projects.insert(path@),
                ..old(self)@
            }),
    {
        let ghost pre = self.projects.deep_view();
        if !contains_string(&self.projects, path) {
            self.projects.push(path.clone());
            proof {
                assert(self.projects.deep_view() =~= pre.push(path@));
                lemma_push_unique(pre, path@);
                lemma_push_to_set(pre, path@);
                assert(final(self)@ == (ShellModel {
                    projects: old(self)@.projects.insert(path@),
                    ..old(self)@
                }));
            }
        } else {
            proof {
                assert(pre.to_set().contains(path@));
                assert(pre.to_set() =~= pre.to_set().insert(path@));
                assert(final(self)@ == (ShellModel {
                    projects: old(self)@.projects.insert(path@),
                    ..old(self)@
                }));
            }
        }
    }

    /// Removes `path` from the project roots; removing an unknown path
    /// changes nothing.
    pub fn remove_project(&mut self, path: &String)
        requires
            old(self).wf(),
        ensures
            final(self).wf(),
            final(self)@ == (ShellModel {
                projects: old(self)@.projects.remove(path@),
                ..old(self)@
            }),
    {
        let ghost pre = self.projects.deep_view();
        let mut i: usize = 0;
        while i < self.projects.len()
            invariant
                old(self).wf(),
                self == old(self),
                pre == self.projects.deep_view(),
                i <= self.projects@.len(),
                forall|j: int| 0 <= j < i ==> pre[j] != path@,
            decreases self.projects@.len() - i,
        {
            proof {
                assert(pre[i as int] == self.projects@[i as int]@);
            }
            if self.projects[i] == *path {
                self.projects.remove(i);
                proof {
                    assert(self.projects.deep_view() =~= pre.remove(i as int));
                    lemma_remove_to_set(pre, i as int);
                    assert(final(self)@ == (ShellModel {
                        projects: old(self)@.projects.remove(path@),
                        ..old(self)@
                    }));
                }
                return ;
            }
            i = i + 1;
        }
        proof {
            assert(forall|j: int| 0 <= j < pre.len() ==> pre[j] != path@);
            assert(!pre.to_set().contains(path@));
            assert(pre.to_set() =~= pre.to_set().remove(path@));
            assert(final(self)@ == (ShellModel {
                projects: old(self)@.projects.remove(path@),
                ..old(self)@
            }));
        }
    }

    /// Records that the user expanded the tree row for `path`; recording
    /// it again changes nothing.
    pub fn add_expansion(&mut self, path: &String)
        requires
            old(self).wf(),
        ensures
            final(self).wf(),
            final(self)@ == (ShellModel {
                expansions: old(self)@.expansions.insert(path@),
                ..old(self)@
            }),
    {
        let ghost pre = self.expansions.deep_view();
        if !contains_string(&self.expansions, path) {
            self.expansions.push(path.clone());
            proof {
                assert(self.expansions.deep_view() =~= pre.push(path@));
                lemma_push_unique(pre, path@);
                lemma_push_to_set(pre, path@);
                assert(final(self)@ == (ShellModel {
                    expansions: old(self)@.expansions.insert(path@),
                    ..old(self)@
                }));
            }
        } else {
            proof {
                assert(pre.to_set().contains(path@));
                assert(pre.to_set() =~= pre.to_set().insert(path@));
                assert(final(self)@ == (ShellModel {
                    expansions: old(self)@.expansions.insert(path@),
                    ..old(self)@
                }));
            }
        }
    }

    /// Records that the user collapsed the tree row for `path`; a row
    /// never recorded expanded stays as it was.
    pub fn remove_expansion(&mut self, path: &String)
        requires
            old(self).wf(),
        ensures
            final(self).wf(),
            final(self)@ == (ShellModel {
                expansions: old(self)@.expansions.remove(path@),
                ..old(self)@
            }),
    {
        let ghost pre = self.expansions.deep_view();
        let mut i: usize = 0;
        while i < self.expansions.len()
            invariant
                old(self).wf(),
                self == old(self),
                pre == self.expansions.deep_view(),
                i <= self.expansions@.len(),
                forall|j: int| 0 <= j < i ==> pre[j] != path@,
            decreases self.expansions@.len() - i,
        {
            proof {
                assert(pre[i as int] == self.expansions@[i as int]@);
            }
            if self.expansions[i] == *path {
                self.expansions.remove(i);
                proof {
                    assert(self.expansions.deep_view() =~= pre.remove(i as int));
                    lemma_remove_to_set(pre, i as int);
                    assert(final(self)@ == (ShellModel {
                        expansions: old(self)@.expansions.remove(path@),
                        ..old(self)@
                    }));
                }
                return ;
            }
            i = i + 1;
        }
        proof {
            assert(forall|j: int| 0 <= j < pre.len() ==> pre[j] != path@);
            assert(!pre.to_set().contains(path@));
            assert(pre.to_set() =~= pre.to_set().remove(path@));
            assert(final(self)@ == (ShellModel {
                expansions: old(self)@.expansions.remove(path@),
                ..old(self)@
            }));
        }
    }

    /// Returns whether `path` was explicitly registered as a project root.
    pub fn is_project_root(&self, path: &String) -> (r: bool)
        ensures
            r == self@.projects.contains(path@),
    {
        contains_string(&self.projects, path)
    }

    /// Raises the font size by one step, up to the upper bound, and
    /// broadcasts the new size to every builder terminal. Returns whether
    /// anything changed, so the caller knows to restyle the editor
    /// terminal and persist the preferences.
    pub fn font_inc(&mut self) -> (changed: bool)
        requires
            old(self).wf(),
        ensures
            final(self).wf(),
            changed == (old(self)@.font_size < MAX_FONT_SIZE),
            changed ==> final(self)@ == (ShellModel {
                font_size: old(self)@.font_size + 1,
                builders: crate::registry::font_model(
                    old(self)@.builders,
                    old(self)@.font_size + 1,
                ),
                ..old(self)@
            }),
            !changed ==> final(self)@ == old(self)@,
    {
        if self.font_size < MAX_FONT_SIZE {
            self.font_size = self.font_size + 1;
            self.registry.set_font_size(self.font_size);
            true
        } else {
            false
        }
    }

    /// Lowers the font size by one step, down to the lower bound, and
    /// broadcasts the new size to every builder terminal. Returns whether
    /// anything changed, so the caller knows to restyle the editor
    /// terminal and persist the preferences.
    pub fn font_dec(&mut self) -> (changed: bool)
        requires
            old(self).wf(),
        ensures
            final(self).wf(),
            changed == (old(self)@.font_size > MIN_FONT_SIZE),
            changed ==> final(self)@ == (ShellModel {
                font_size: old(self)@.font_size - 1,
                builders: crate::registry::font_model(
                    old(self)@.builders,
                    old(self)@.font_size - 1,
                ),
                ..old(self)@
            }),
            !changed ==> final(self)@ == old(self)@,
    {
        if self.font_size > MIN_FONT_SIZE {
            self.font_size = self.font_size - 1;
            self.registry.set_font_size(self.font_size);
            true
        } else {
            false
        }
    }

    /// Turns easy mode on or off and returns the editor command that tells
    /// the editor runtime the same, for the caller to send over the
    /// shell-to-editor pipe.
    pub fn set_easy_mode(&mut self, on: bool) -> (cmd: String)
        requires
            old(self).wf(),
        ensures
            final(self).wf(),
            final(self)@ == (ShellModel { easy_mode: on, ..old(self)@ }),
            cmd@ == easy_mode_command_model(on),
    {
        self.easy_mode = on;
        easy_mode_command(on)
    }
}

/// The editor option command for an easy-mode switch: `set im` turns
/// insert-mode-by-default on, `set noim` turns it off.
pub open spec fn easy_mode_command_model(on: bool) -> Seq<char> {
    if on {
        "set im"@
    } else {
        "set noim"@
    }
}

/// Returns the editor command that applies an easy-mode switch.
pub fn easy_mode_command(on: bool) -> (cmd: String)
    ensures
        cmd@ == easy_mode_command_model(on),
{
    if on {
        String::from_str("set im")
    } else {
        String::from_str("set noim")
    }
}

/// The project root governing `path`: the nearest enclosing directory,
/// `path` itself first, that either holds a manifest or was registered as
/// a project.
pub open spec fn project_root_of(
    projects: Set<Seq<char>>,
    manifests: Seq<Seq<char>>,
    path: Seq<char>,
) -> Option<Seq<char>>
    decreases path.len(),
{
    if manifests.contains(path) || projects.contains(path) {
        Some(path)
    } else {
        match parent_of(path) {
            Some(p) => if p.len() < path.len() {
                project_root_of(projects, manifests, p)
            } else {
                None
            },
            None => None,
        }
    }
}

proof fn lemma_parent_shorter(s: Seq<char>)
    ensures
        parent_of(s) matches Some(p) ==> p.len() < s.len(),
    decreases s.len(),
{
    if s.len() > 0 && s[s.len() - 1] != '/' {
        lemma_parent_shorter(s.take(s.len() - 1));
    }
}

impl ShellState {
    /// Walks upward from `path` to the project root that governs it:
    /// `path` itself when it holds a manifest (is listed in
    /// `manifest_dirs`) or was registered as a project, else the nearest
    /// such ancestor; nothing when no ancestor qualifies.
    pub fn get_project_path(&self, path: &String, manifest_dirs: &Vec<String>) -> (r: Option<
        String,
    >)
        ensures
            match r {
                Some(p) => project_root_of(self@.projects, manifest_dirs.deep_view(), path@)
                    == Some(p@),
                None => project_root_of(self@.projects, manifest_dirs.deep_view(), path@) is None,
            },
    {
        let mut cur = path.clone();
        loop
            invariant
                project_root_of(self@.projects, manifest_dirs.deep_view(), path@)
                    == project_root_of(self@.projects, manifest_dirs.deep_view(), cur@),
            decreases cur@.len(),
        {
            if is_project_path(&cur, manifest_dirs) || self.is_project_root(&cur) {
                return Some(cur);
            }
            proof {
                lemma_parent_shorter(cur@);
            }
            match parent_path(&cur) {
                Some(p) => {
                    cur = p;
                },
                None => {
                    return None;
                },
            }
        }
    }

    /// The project root governing the current selection, when there is a
    /// selection and a root governs it.
    pub fn get_selected_project_path(&self, manifest_dirs: &Vec<String>) -> (r: Option<String>)
        ensures
            match self@.selection {
                Some(sel) => match r {
                    Some(p) => project_root_of(self@.projects, manifest_dirs.deep_view(), sel)
                        == Some(p@),
                    None => project_root_of(self@.projects, manifest_dirs.deep_view(), sel)
                        is None,
                },
                None => r is None,
            },
    {
        match &self.selection {
            Some(sel) => {
                let s = sel.clone();
                self.get_project_path(&s, manifest_dirs)
            },
            None => None,
        }
    }
}

} // verus!
