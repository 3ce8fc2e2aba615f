//! The builder process registry.
//!
//! The registry is the sole owner of every live build subprocess and of the
//! terminal surface each one is bound to, keyed by project root path. It
//! holds at most one builder per project path at any time: starting a new
//! command for a path first tears down the builder already registered there.
//! Spawning and terminating the real OS processes, and rendering the real
//! terminal widgets, are collaborator calls made by the surrounding
//! application: the registry records the process id a spawn handed back and
//! returns the ids of whatever must be torn down.
use vstd::prelude::*;
use crate::DEFAULT_FONT_SIZE;

verus! {

/// The terminal surface bound to one builder, as the registry tracks it: a
/// handle the application maps to a real widget, and the font size last
/// applied to that widget.
pub struct TerminalSurface {
    pub id: u64,
    pub font_size: i32,
}

/// One tracked build subprocess: the project it builds, the command line it
/// was spawned with, the process id the spawn returned, and its terminal.
pub struct Builder {
    pub project_path: String,
    pub command_argv: Vec<String>,
    pub child_pid: i32,
    pub terminal: TerminalSurface,
}

/// The meaning of a [`Builder`], with text reduced to character sequences.
pub struct BuilderModel {
    pub argv: Seq<Seq<char>>,
    pub pid: int,
    pub terminal_id: int,
    pub font_size: int,
}

impl View for Builder {
    type V = BuilderModel;

    open spec fn view(&self) -> BuilderModel {
        BuilderModel {
            argv: self.command_argv.deep_view(),
            pid: self.child_pid as int,
            terminal_id: self.terminal.id as int,
            font_size: self.terminal.font_size as int,
        }
    }
}

/// What the registry hands back for a builder it no longer tracks: the
/// process to terminate and the terminal surface to release.
pub struct StoppedBuilder {
    pub child_pid: i32,
    pub terminal_id: u64,
}

/// The in-memory table of live builders, keyed by project path. Its meaning
/// is a map from path to [`BuilderModel`], so a path can never hold two
/// builders at once.
pub struct BuilderRegistry {
    entries: Vec<Builder>,
    next_terminal_id: u64,
}

/// The map described by a sequence of builder entries, later entries
/// winning.
pub open spec fn entries_map(s: Seq<Builder>) -> Map<Seq<char>, BuilderModel>
    decreases s.len(),
{
    if s.len() == 0 {
        Map::empty()
    } else {
        entries_map(s.drop_last()).insert(s.last().project_path@, s.last()@)
    }
}

/// No two entries of `s` share a project path.
pub open spec fn unique_paths(s: Seq<Builder>) -> bool {
    forall|i: int, j: int|
        0 <= i < j < s.len() ==> s[i].project_path@ != s[j].project_path@
}

/// What a registry map looks like after a new builder is registered for
/// `p`: any builder previously at `p` is displaced, and the fresh entry
/// carries the spawned pid, a fresh terminal and the default font size.
pub open spec fn run_model(
    m: Map<Seq<char>, BuilderModel>,
    p: Seq<char>,
    argv: Seq<Seq<char>>,
    pid: int,
    terminal_id: int,
) -> Map<Seq<char>, BuilderModel> {
    m.insert(
        p,
        BuilderModel { argv, pid, terminal_id, font_size: DEFAULT_FONT_SIZE as int },
    )
}

/// What a registry map looks like after a font broadcast: the same
/// builders, every terminal surface at size `n`.
pub open spec fn font_model(m: Map<Seq<char>, BuilderModel>, n: int) -> Map<
    Seq<char>,
    BuilderModel,
> {
    Map::new(|k: Seq<char>| m.contains_key(k), |k: Seq<char>| BuilderModel { font_size: n, ..m[k] })
}

/// `t` is the teardown ticket for the builder entry `b`.
pub open spec fn ticket_of(t: StoppedBuilder, b: Builder) -> bool {
    t.child_pid == b.child_pid && t.terminal_id == b.terminal.id
}

/// Some builder of `m` has `t` as its teardown ticket.
pub open spec fn ticket_sourced(m: Map<Seq<char>, BuilderModel>, t: StoppedBuilder) -> bool {
    exists|k: Seq<char>| ticket_matches(m, t, k)
}

/// `t` is the teardown ticket for the builder that `m` holds at `k`.
pub open spec fn ticket_matches(
    m: Map<Seq<char>, BuilderModel>,
    t: StoppedBuilder,
    k: Seq<char>,
) -> bool {
    m.contains_key(k) && t.child_pid as int == m[k].pid && t.terminal_id as int == m[k].terminal_id
}

proof fn lemma_entries_map_dom(s: Seq<Builder>)
    ensures
        entries_map(s).dom().finite(),
        forall|p: Seq<char>|
            entries_map(s).contains_key(p) <==> exists|i: int|
                0 <= i < s.len() && s[i].project_path@ == p,
    decreases s.len(),
{
    if s.len() > 0 {
        lemma_entries_map_dom(s.drop_last());
        assert forall|p: Seq<char>| entries_map(s).contains_key(p) implies exists|i: int|
            0 <= i < s.len() && s[i].project_path@ == p by {
            if p == s.last().project_path@ {
                assert(s[s.len() - 1].project_path@ == p);
            } else {
                let i = choose|i: int| 0 <= i < s.drop_last().len() && s.drop_last()[i].project_path@ == p;
                assert(s[i].project_path@ == p);
            }
        }
        assert forall|p: Seq<char>|
            (exists|i: int| 0 <= i < s.len() && s[i].project_path@ == p) implies entries_map(
            s,
        ).contains_key(p) by {
            let i = choose|i: int| 0 <= i < s.len() && s[i].project_path@ == p;
            if i < s.len() - 1 {
                assert(s.drop_last()[i].project_path@ == p);
            }
        }
    }
}

proof fn lemma_entries_map_index(s: Seq<Builder>, i: int)
    requires
        unique_paths(s),
        0 <= i < s.len(),
    ensures
        entries_map(s).contains_key(s[i].project_path@),
        entries_map(s)[s[i].project_path@] == s[i]@,
    decreases s.len(),
{
    lemma_entries_map_dom(s);
    if i < s.len() - 1 {
        assert(unique_paths(s.drop_last()));
        lemma_entries_map_index(s.drop_last(), i);
        assert(s.drop_last()[i] == s[i]);
        assert(s[i].project_path@ != s.last().project_path@);
    }
}

proof fn lemma_entries_map_len(s: Seq<Builder>)
    requires
        unique_paths(s),
    ensures
        entries_map(s).dom().len() == s.len(),
    decreases s.len(),
{
    lemma_entries_map_dom(s);
    if s.len() > 0 {
        assert(unique_paths(s.drop_last()));
        lemma_entries_map_len(s.drop_last());
        lemma_entries_map_dom(s.drop_last());
        assert(!entries_map(s.drop_last()).contains_key(s.last().project_path@));
        assert(entries_map(s).dom() =~= entries_map(s.drop_last()).dom().insert(
            s.last().project_path@,
        ));
        vstd::set::axiom_set_insert_len(
            entries_map(s.drop_last()).dom(),
            s.last().project_path@,
        );
    }
}

proof fn lemma_entries_map_remove(s: Seq<Builder>, i: int)
    requires
        unique_paths(s),
        0 <= i < s.len(),
    ensures
        entries_map(s.remove(i)) =~= entries_map(s).remove(s[i].project_path@),
    decreases s.len(),
{
    let k = s[i].project_path@;
    lemma_entries_map_dom(s);
    if i == s.len() - 1 {
        assert(s.remove(i) =~= s.drop_last());
        assert(unique_paths(s.drop_last()));
        lemma_entries_map_dom(s.drop_last());
        assert(!entries_map(s.drop_last()).contains_key(k));
        assert(entries_map(s.drop_last()).insert(k, s.last()@).remove(k) =~= entries_map(
            s.drop_last(),
        ));
    } else {
        let dl = s.drop_last();
        assert(unique_paths(dl));
        lemma_entries_map_remove(dl, i);
        assert(s.remove(i).drop_last() =~= dl.remove(i));
        assert(s.remove(i).last() == s.last());
        assert(entries_map(s.remove(i)) == entries_map(dl.remove(i)).insert(
            s.last().project_path@,
            s.last()@,
        ));
        assert(s.last().project_path@ != k);
        assert(entries_map(dl).remove(k).insert(s.last().project_path@, s.last()@)
            =~= entries_map(dl).insert(s.last().project_path@, s.last()@).remove(k));
    }
}

impl View for BuilderRegistry {
    type V = Map<Seq<char>, BuilderModel>;

    closed spec fn view(&self) -> Map<Seq<char>, BuilderModel> {
        entries_map(self.entries@)
    }
}

impl BuilderRegistry {
    /// The registry keeps itself in shape: no project path holds two
    /// builders, and every terminal handle it ever handed out is below the
    /// counter for the next one.
    pub closed spec fn wf(&self) -> bool {
        &&& unique_paths(self.entries@)
        &&& forall|i: int|
            0 <= i < self.entries@.len() ==> self.entries@[i].terminal.id
                < self.next_terminal_id
    }

    /// The handle the next created terminal surface will get.
    pub closed spec fn terminal_counter(&self) -> int {
        self.next_terminal_id as int
    }

    /// Creates an empty registry: no builder is tracked at startup.
    pub fn new() -> (r: BuilderRegistry)
        ensures
            r.wf(),
            r@ == Map::<Seq<char>, BuilderModel>::empty(),
            r.terminal_counter() == 0,
    {
        BuilderRegistry { entries: Vec::new(), next_terminal_id: 0 }
    }

    /// How many builders are live.
    pub fn builder_count(&self) -> (n: usize)
        requires
            self.wf(),
        ensures
            n == self@.dom().len(),
    {
        proof {
            lemma_entries_map_len(self.entries@);
        }
        self.entries.len()
    }

    fn find_index(&self, project_path: &String) -> (r: Option<usize>)
        requires
            self.wf(),
        ensures
            match r {
                Some(i) => i < self.entries@.len() && self.entries@[i as int].project_path@
                    == project_path@ && self@.contains_key(project_path@),
                None => !self@.contains_key(project_path@),
            },
    {
        proof {
            lemma_entries_map_dom(self.entries@);
        }
        let mut i: usize = 0;
        while i < self.entries.len()
            invariant
                self.wf(),
                i <= self.entries@.len(),
                forall|j: int| 0 <= j < i ==> self.entries@[j].project_path@ != project_path@,
            decreases self.entries@.len() - i,
        {
            if self.entries[i].project_path == *project_path {
                proof {
                    lemma_entries_map_index(self.entries@, i as int);
                }
                return Some(i);
            }
            i = i + 1;
        }
        None
    }

    /// Returns whether a builder is live for `project_path`.
    pub fn contains_builder(&self, project_path: &String) -> (r: bool)
        requires
            self.wf(),
        ensures
            r == self@.contains_key(project_path@),
    {
        self.find_index(project_path).is_some()
    }

    /// The process id of the builder for `project_path`, when one is live.
    pub fn builder_pid(&self, project_path: &String) -> (r: Option<i32>)
        requires
            self.wf(),
        ensures
            match r {
                Some(pid) => self@.contains_key(project_path@) && pid as int
                    == self@[project_path@].pid,
                None => !self@.contains_key(project_path@),
            },
    {
        match self.find_index(project_path) {
            Some(i) => {
                proof {
                    lemma_entries_map_index(self.entries@, i as int);
                }
                Some(self.entries[i].child_pid)
            },
            None => None,
        }
    }

    /// The font size of the terminal surface of the builder for
    /// `project_path`, when one is live.
    pub fn builder_font_size(&self, project_path: &String) -> (r: Option<i32>)
        requires
            self.wf(),
        ensures
            match r {
                Some(n) => self@.contains_key(project_path@) && n as int
                    == self@[project_path@].font_size,
                None => !self@.contains_key(project_path@),
            },
    {
        match self.find_index(project_path) {
            Some(i) => {
                proof {
                    lemma_entries_map_index(self.entries@, i as int);
                }
                Some(self.entries[i].terminal.font_size)
            },
            None => None,
        }
    }

    /// Makes the terminal of the builder for `project_path` the visible
    /// one: returns the handle to raise, or nothing when no builder is live
    /// for that path, in which case the caller shows a placeholder empty
    /// surface (no process implied).
    pub fn show(&self, project_path: &String) -> (r: Option<u64>)
        requires
            self.wf(),
        ensures
            match r {
                Some(id) => self@.contains_key(project_path@) && id as int
                    == self@[project_path@].terminal_id,
                None => !self@.contains_key(project_path@),
            },
    {
        match self.find_index(project_path) {
            Some(i) => {
                proof {
                    lemma_entries_map_index(self.entries@, i as int);
                }
                Some(self.entries[i].terminal.id)
            },
            None => None,
        }
    }

    /// Stops the builder for `project_path`, when one is live: removes the
    /// registry entry and returns the process to terminate and the terminal
    /// surface to release. Calling it for a path with no builder is a
    /// no-op, not an error.
    pub fn stop(&mut self, project_path: &String) -> (stopped: Option<StoppedBuilder>)
        requires
            old(self).wf(),
        ensures
            final(self).wf(),
            final(self)@ == old(self)@.remove(project_path@),
            final(self).terminal_counter() == old(self).terminal_counter(),
            match stopped {
                Some(t) => old(self)@.contains_key(project_path@) && t.child_pid as int
                    == old(self)@[project_path@].pid && t.terminal_id as int
                    == old(self)@[project_path@].terminal_id,
                None => !old(self)@.contains_key(project_path@) && final(self)@ == old(self)@,
            },
    {
        match self.find_index(project_path) {
            Some(i) => {
                proof {
                    lemma_entries_map_index(self.entries@, i as int);
                    lemma_entries_map_remove(self.entries@, i as int);
                }
                let b = self.entries.remove(i);
                proof {
                    let s = old(self).entries@;
                    let t = self.entries@;
                    assert forall|x: int, y: int| 0 <= x < y < t.len() implies t[x].project_path@
                        != t[y].project_path@ by {
                        assert(t[x] == if x < i { s[x] } else { s[x + 1] });
                        assert(t[y] == if y < i { s[y] } else { s[y + 1] });
                    }
                    assert forall|x: int| 0 <= x < t.len() implies t[x].terminal.id
                        < self.next_terminal_id by {
                        assert(t[x] == if x < i { s[x] } else { s[x + 1] });
                    }
                }
                Some(StoppedBuilder { child_pid: b.child_pid, terminal_id: b.terminal.id })
            },
            None => {
                proof {
                    assert(old(self)@.remove(project_path@) =~= old(self)@);
                }
                None
            },
        }
    }

    /// Registers a builder for `project_path`: the command line it was
    /// spawned with and the process id the spawn handed back. A builder
    /// already live for the path is displaced and returned for teardown, so
    /// the path holds exactly one builder afterwards. The new builder gets
    /// a fresh terminal surface at the default font size.
    pub fn run(
        &mut self,
        project_path: &String,
        command_argv: Vec<String>,
        child_pid: i32,
    ) -> (stopped: Option<StoppedBuilder>)
        requires
            old(self).wf(),
            old(self).terminal_counter() < u64::MAX,
        ensures
            final(self).wf(),
            final(self)@ == run_model(
                old(self)@,
                project_path@,
                command_argv.deep_view(),
                child_pid as int,
                old(self).terminal_counter(),
            ),
            final(self).terminal_counter() == old(self).terminal_counter() + 1,
            match stopped {
                Some(t) => old(self)@.contains_key(project_path@) && t.child_pid as int
                    == old(self)@[project_path@].pid && t.terminal_id as int
                    == old(self)@[project_path@].terminal_id,
                None => !old(self)@.contains_key(project_path@),
            },
    {
        let stopped = self.stop(project_path);
        let ghost mid = self.entries@;
        proof {
            lemma_entries_map_dom(mid);
            assert forall|j: int| 0 <= j < mid.len() implies mid[j].project_path@
                != project_path@ by {
                if mid[j].project_path@ == project_path@ {
                    assert(entries_map(mid).contains_key(project_path@));
                }
            }
        }
        let b = Builder {
            project_path: project_path.clone(),
            command_argv,
            child_pid,
            terminal: TerminalSurface { id: self.next_terminal_id, font_size: DEFAULT_FONT_SIZE },
        };
        self.entries.push(b);
        self.next_terminal_id = self.next_terminal_id + 1;
        proof {
            assert(self.entries@.drop_last() =~= mid);
            assert forall|x: int, y: int|
                0 <= x < y < self.entries@.len() implies self.entries@[x].project_path@
                != self.entries@[y].project_path@ by {
                if y < self.entries@.len() - 1 {
                    assert(self.entries@[x] == mid[x] && self.entries@[y] == mid[y]);
                } else {
                    assert(self.entries@[x] == mid[x]);
                }
            }
            assert(final(self)@ =~= run_model(
                old(self)@,
                project_path@,
                command_argv.deep_view(),
                child_pid as int,
                old(self).terminal_counter(),
            ));
        }
        stopped
    }

    /// Stops every live builder, for shutdown: drains the registry and
    /// returns every process to terminate and every terminal surface to
    /// release. The registry is empty afterwards, so no child process is
    /// left tracked.
    pub fn stop_all(&mut self) -> (stopped: Vec<StoppedBuilder>)
        requires
            old(self).wf(),
        ensures
            final(self).wf(),
            final(self)@ == Map::<Seq<char>, BuilderModel>::empty(),
            final(self).terminal_counter() == old(self).terminal_counter(),
            stopped@.len() == old(self)@.dom().len(),
            forall|k: Seq<char>| #[trigger] old(self)@.contains_key(k) ==> exists|i: int|
                0 <= i < stopped@.len() && ticket_matches(old(self)@, stopped@[i], k),
            forall|i: int|
                0 <= i < stopped@.len() ==> ticket_sourced(old(self)@, #[trigger] stopped@[i]),
    {
        proof {
            lemma_entries_map_len(old(self).entries@);
            lemma_entries_map_dom(old(self).entries@);
        }
        let ghost orig = self.entries@;
        let mut stopped: Vec<StoppedBuilder> = Vec::new();
        while self.entries.len() > 0
            invariant
                self.entries@ == orig.take(self.entries@.len() as int),
                self.next_terminal_id == old(self).next_terminal_id,
                stopped@.len() + self.entries@.len() == orig.len(),
                forall|i: int|
                    0 <= i < stopped@.len() ==> ticket_of(
                        #[trigger] stopped@[i],
                        orig[orig.len() - 1 - i],
                    ),
            decreases self.entries@.len(),
        {
            let ghost pre = self.entries@;
            let b = self.entries.pop().unwrap();
            proof {
                assert(pre.drop_last() =~= orig.take(pre.len() - 1));
                assert(b == orig[pre.len() - 1]);
            }
            stopped.push(StoppedBuilder { child_pid: b.child_pid, terminal_id: b.terminal.id });
        }
        proof {
            assert(self.entries@ =~= Seq::<Builder>::empty());
            assert(final(self)@ =~= Map::<Seq<char>, BuilderModel>::empty());
            assert forall|k: Seq<char>| #[trigger] old(self)@.contains_key(k) implies exists|i: int|
                0 <= i < stopped@.len() && ticket_matches(old(self)@, stopped@[i], k) by {
                let j = choose|j: int| 0 <= j < orig.len() && orig[j].project_path@ == k;
                lemma_entries_map_index(orig, j);
                let i = orig.len() - 1 - j;
                assert(ticket_matches(old(self)@, stopped@[i], k));
            }
            assert forall|i: int|
                0 <= i < stopped@.len() implies ticket_sourced(old(self)@, #[trigger] stopped@[i]) by {
                let j = orig.len() - 1 - i;
                lemma_entries_map_index(orig, j);
                assert(ticket_matches(old(self)@, stopped@[i], orig[j].project_path@));
            }
        }
        stopped
    }

    /// Propagates a font-size change to every live builder's terminal
    /// surface uniformly: a broadcast, not per-entry addressed. Builders
    /// registered after the call keep the default size until the broadcast
    /// is applied again.
    pub fn set_font_size(&mut self, size: i32)
        requires
            old(self).wf(),
        ensures
            final(self).wf(),
            final(self)@ == font_model(old(self)@, size as int),
            final(self).terminal_counter() == old(self).terminal_counter(),
    {
        let ghost orig = self.entries@;
        let mut i: usize = 0;
        while i < self.entries.len()
            invariant
                self.entries@.len() == orig.len(),
                i <= orig.len(),
                forall|j: int|
                    0 <= j < orig.len() ==> self.entries@[j].project_path == orig[j].project_path
                        && self.entries@[j].command_argv == orig[j].command_argv
                        && self.entries@[j].child_pid == orig[j].child_pid
                        && self.entries@[j].terminal.id == orig[j].terminal.id,
                forall|j: int|
                    0 <= j < i ==> #[trigger] self.entries@[j].terminal.font_size == size,
                forall|j: int|
                    i <= j < orig.len() ==> #[trigger] self.entries@[j].terminal.font_size
                        == orig[j].terminal.font_size,
                self.next_terminal_id == old(self).next_terminal_id,
            decreases orig.len() - i,
        {
            self.entries[i].terminal.font_size = size;
            i = i + 1;
        }
        proof {
            let t = self.entries@;
            assert forall|a: int, b: int| 0 <= a < b < t.len() implies t[a].project_path@
                != t[b].project_path@ by {
                assert(t[a].project_path == orig[a].project_path);
                assert(t[b].project_path == orig[b].project_path);
            }
            assert forall|a: int| 0 <= a < t.len() implies t[a].terminal.id
                < self.next_terminal_id by {
                assert(t[a].terminal.id == orig[a].terminal.id);
            }
            lemma_entries_map_dom(orig);
            lemma_entries_map_dom(t);
            assert forall|k: Seq<char>|
                entries_map(t).contains_key(k) == font_model(entries_map(orig), size as int)
                    .contains_key(k) by {
                if entries_map(t).contains_key(k) {
                    let j = choose|j: int| 0 <= j < t.len() && t[j].project_path@ == k;
                    assert(orig[j].project_path@ == k);
                }
                if entries_map(orig).contains_key(k) {
                    let j = choose|j: int| 0 <= j < orig.len() && orig[j].project_path@ == k;
                    assert(t[j].project_path@ == k);
                }
            }
            assert forall|k: Seq<char>| #[trigger]
                entries_map(t).contains_key(k) implies entries_map(t)[k] == font_model(
                entries_map(orig),
                size as int,
            )[k] by {
                let j = choose|j: int| 0 <= j < t.len() && t[j].project_path@ == k;
                lemma_entries_map_index(t, j);
                assert(orig[j].project_path@ == k);
                lemma_entries_map_index(orig, j);
            }
            assert(entries_map(t) =~= font_model(entries_map(orig), size as int));
        }
    }
}


/// For any project path the registry holds at most one builder at a time:
/// registering a builder for a path that already holds one leaves exactly
/// one entry for that path, carrying the newly spawned process, and the
/// path no longer tracks the displaced builder. Before the new builder is
/// registered, the displaced one's process id is still read off the table,
/// so the caller can terminate it first.
pub proof fn lemma_single_builder_per_path(
    m: Map<Seq<char>, BuilderModel>,
    p: Seq<char>,
    argv1: Seq<Seq<char>>,
    pid1: int,
    tid1: int,
    argv2: Seq<Seq<char>>,
    pid2: int,
    tid2: int,
)
    ensures
        run_model(m, p, argv1, pid1, tid1).contains_key(p),
        run_model(m, p, argv1, pid1, tid1)[p].pid == pid1,
        run_model(run_model(m, p, argv1, pid1, tid1), p, argv2, pid2, tid2)[p]
            == (BuilderModel {
            argv: argv2,
            pid: pid2,
            terminal_id: tid2,
            font_size: DEFAULT_FONT_SIZE as int,
        }),
        run_model(run_model(m, p, argv1, pid1, tid1), p, argv2, pid2, tid2).dom()
            == m.dom().insert(p),
{
    assert(run_model(run_model(m, p, argv1, pid1, tid1), p, argv2, pid2, tid2).dom()
        =~= m.dom().insert(p));
}

/// Stopping a path that holds no builder changes nothing: the registry
/// map stays exactly as it was.
pub proof fn lemma_stop_absent_no_op(m: Map<Seq<char>, BuilderModel>, p: Seq<char>)
    requires
        !m.contains_key(p),
    ensures
        m.remove(p) == m,
{
    assert(m.remove(p) =~= m);
}

/// A font broadcast reaches every live builder's terminal uniformly. It
/// is not retroactively sticky: a builder registered after the broadcast
/// carries the default size, and only applying the broadcast again brings
/// that one to the chosen size too.
pub proof fn lemma_font_broadcast(
    m: Map<Seq<char>, BuilderModel>,
    n: int,
    p: Seq<char>,
    argv: Seq<Seq<char>>,
    pid: int,
    tid: int,
)
    ensures
        forall|k: Seq<char>| #[trigger] font_model(m, n).contains_key(k) ==> font_model(m, n)[k].font_size
            == n,
        forall|k: Seq<char>|
            font_model(m, n).contains_key(k) == m.contains_key(k),
        run_model(font_model(m, n), p, argv, pid, tid)[p].font_size == DEFAULT_FONT_SIZE as int,
        font_model(run_model(font_model(m, n), p, argv, pid, tid), n)[p].font_size == n,
{
}

/// End to end: registering a builder for a fresh path, replacing it with
/// another command, then draining the registry leaves nothing running.
/// At every stage the path holds at most one builder, the replacement
/// displaces exactly the first process, and after the drain the registry
/// holds no builder at all.
pub proof fn lemma_rerun_then_drain(
    m: Map<Seq<char>, BuilderModel>,
    p: Seq<char>,
    argv1: Seq<Seq<char>>,
    pid1: int,
    tid1: int,
    argv2: Seq<Seq<char>>,
    pid2: int,
    tid2: int,
)
    requires
        !m.contains_key(p),
    ensures
        ({
            let m1 = run_model(m, p, argv1, pid1, tid1);
            let m2 = run_model(m1, p, argv2, pid2, tid2);
            m1.dom() == m.dom().insert(p) && m1[p].pid == pid1 && m2.dom() == m1.dom() && m2[p].pid
                == pid2 && Map::<Seq<char>, BuilderModel>::empty().dom().len() == 0
        }),
{
    let m1 = run_model(m, p, argv1, pid1, tid1);
    let m2 = run_model(m1, p, argv2, pid2, tid2);
    assert(m1.dom() =~= m.dom().insert(p));
    assert(m2.dom() =~= m1.dom());
    assert(Map::<Seq<char>, BuilderModel>::empty().dom() =~= Set::<Seq<char>>::empty());
}

} // verus!
