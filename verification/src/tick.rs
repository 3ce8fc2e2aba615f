//! The cooperative event loop's decisions.
//!
//! The loop itself lives with the GUI: each tick it drains GUI events,
//! polls the IPC channel once without blocking, and hands whatever came of
//! the poll to [`tick`]. That call applies the message to the shell state
//! and says which UI refreshes must follow, in which order. The loop
//! performs them, breaks once the quit flag is set, and then calls
//! [`shutdown`] so no child process outlives the shell.
use vstd::prelude::*;
use crate::ipc::{Message, MessageModel};
use crate::registry::{font_model, ticket_matches, ticket_sourced, BuilderModel, StoppedBuilder};
use crate::shell::{project_root_of, ShellModel, ShellState};

verus! {

/// What one non-blocking poll of the IPC channel came to: nothing yet, one
/// decoded message, or the end of the channel (the editor process is
/// gone).
pub enum PollEvent {
    Idle,
    Received(Message),
    ChannelClosed,
}

/// The meaning of a [`PollEvent`].
pub enum PollEventModel {
    Idle,
    Received(MessageModel),
    ChannelClosed,
}

impl View for PollEvent {
    type V = PollEventModel;

    open spec fn view(&self) -> PollEventModel {
        match self {
            PollEvent::Idle => PollEventModel::Idle,
            PollEvent::Received(m) => PollEventModel::Received(m@),
            PollEvent::ChannelClosed => PollEventModel::ChannelClosed,
        }
    }
}

/// One UI refresh the loop must perform after a tick, in list order.
pub enum UiAction {
    /// Write the preferences out, because the selection changed.
    PersistPrefs,
    /// Rebuild the project tree view.
    RefreshTree,
    /// Raise this terminal surface in the builder stack, or show the
    /// placeholder empty surface when there is none to raise.
    ShowBuilder(Option<u64>),
    /// Restyle every builder terminal widget to this font size.
    ApplyBuilderFont(i32),
}

/// The meaning of a [`UiAction`].
pub enum UiActionModel {
    PersistPrefs,
    RefreshTree,
    ShowBuilder(Option<int>),
    ApplyBuilderFont(int),
}

impl View for UiAction {
    type V = UiActionModel;

    open spec fn view(&self) -> UiActionModel {
        match self {
            UiAction::PersistPrefs => UiActionModel::PersistPrefs,
            UiAction::RefreshTree => UiActionModel::RefreshTree,
            UiAction::ShowBuilder(t) => UiActionModel::ShowBuilder(
                match t {
                    Some(id) => Some(id as int),
                    None => None,
                },
            ),
            UiAction::ApplyBuilderFont(n) => UiActionModel::ApplyBuilderFont(n as int),
        }
    }
}

impl DeepView for UiAction {
    type V = UiActionModel;

    open spec fn deep_view(&self) -> UiActionModel {
        self.view()
    }
}

/// The terminal surface that should be visible for state `s`: the one of
/// the builder for the project root governing the selection, or none (the
/// placeholder) when nothing is selected, no root governs the selection,
/// or no builder is live for it.
pub open spec fn visible_terminal(s: ShellModel, manifests: Seq<Seq<char>>) -> Option<int> {
    match s.selection {
        Some(sel) => match project_root_of(s.projects, manifests, sel) {
            Some(root) => if s.builders.contains_key(root) {
                Some(s.builders[root].terminal_id)
            } else {
                None
            },
            None => None,
        },
        None => None,
    }
}

/// What one message does to the state: a buffer-entered notification moves
/// the selection, a quit notification sets the quit flag, and an ignored
/// message changes nothing.
pub open spec fn message_effect(s: ShellModel, m: MessageModel) -> ShellModel {
    match m {
        MessageModel::BufferEntered(p) => ShellModel { selection: Some(p), ..s },
        MessageModel::VimLeave => ShellModel { quit: true, ..s },
        MessageModel::Unrecognized => s,
    }
}

/// The state after one tick: an idle poll changes nothing; a received
/// message takes effect and the font size is re-applied to every builder
/// terminal; the end of the channel counts as receiving the quit
/// notification.
pub open spec fn ticked(s: ShellModel, e: PollEventModel) -> ShellModel {
    match e {
        PollEventModel::Idle => s,
        PollEventModel::Received(m) => {
            let s2 = message_effect(s, m);
            ShellModel { builders: font_model(s2.builders, s2.font_size), ..s2 }
        },
        PollEventModel::ChannelClosed => {
            let s2 = message_effect(s, MessageModel::VimLeave);
            ShellModel { builders: font_model(s2.builders, s2.font_size), ..s2 }
        },
    }
}

/// The refresh batch that follows any received message, in its fixed
/// order: tree first, then the visible builder, then the font broadcast.
/// The batch is computed against the state the message left behind.
pub open spec fn refresh_batch(s2: ShellModel, manifests: Seq<Seq<char>>) -> Seq<UiActionModel> {
    seq![
        UiActionModel::RefreshTree,
        UiActionModel::ShowBuilder(visible_terminal(s2, manifests)),
        UiActionModel::ApplyBuilderFont(s2.font_size),
    ]
}

/// The UI refreshes one tick asks for: none for an idle poll; for any
/// received message the refresh batch, preceded by a preference write when
/// the message moved the selection; the end of the channel asks for the
/// same refreshes as the quit notification.
pub open spec fn tick_actions(
    s: ShellModel,
    e: PollEventModel,
    manifests: Seq<Seq<char>>,
) -> Seq<UiActionModel> {
    match e {
        PollEventModel::Idle => Seq::empty(),
        PollEventModel::Received(m) => {
            let batch = refresh_batch(ticked(s, e), manifests);
            if m is BufferEntered {
                seq![UiActionModel::PersistPrefs] + batch
            } else {
                batch
            }
        },
        PollEventModel::ChannelClosed => refresh_batch(ticked(s, e), manifests),
    }
}

/// Applies what one poll of the IPC channel came to and returns the UI
/// refreshes that must follow, in order. At most one message is processed
/// per tick, and the refresh batch always follows a received message,
/// never an idle poll.
pub fn tick(state: &mut ShellState, event: PollEvent, manifest_dirs: &Vec<String>) -> (actions:
    Vec<UiAction>)
    requires
        old(state).wf(),
    ensures
        final(state).wf(),
        final(state)@ == ticked(old(state)@, event@),
        actions.deep_view() == tick_actions(old(state)@, event@, manifest_dirs.deep_view()),
{
    match event {
        PollEvent::Idle => {
            let actions: Vec<UiAction> = Vec::new();
            proof {
                assert(actions.deep_view() =~= tick_actions(
                    old(state)@,
                    event@,
                    manifest_dirs.deep_view(),
                ));
            }
            actions
        },
        PollEvent::Received(m) => {
            let persist = match m {
                Message::BufferEntered(p) => {
                    state.selection = Some(p);
                    true
                },
                Message::VimLeave => {
                    state.quit = true;
                    false
                },
                Message::Unrecognized => false,
            };
            refresh(state, manifest_dirs, persist, Ghost(old(state)@), Ghost(event@))
        },
        PollEvent::ChannelClosed => {
            state.quit = true;
            refresh(state, manifest_dirs, false, Ghost(old(state)@), Ghost(event@))
        },
    }
}

/// Performs the in-state part of the refresh batch (the font re-apply)
/// and builds the batch itself, with the preference write in front when
/// the tick asks for one.
fn refresh(
    state: &mut ShellState,
    manifest_dirs: &Vec<String>,
    persist: bool,
    Ghost(s0): Ghost<ShellModel>,
    Ghost(e): Ghost<PollEventModel>,
) -> (actions: Vec<UiAction>)
    requires
        old(state).wf(),
        !(e is Idle),
        old(state)@ == message_effect(s0, match e {
            PollEventModel::Received(m) => m,
            _ => MessageModel::VimLeave,
        }),
        persist == (e matches PollEventModel::Received(m) && m is BufferEntered),
    ensures
        final(state).wf(),
        final(state)@ == ticked(s0, e),
        actions.deep_view() == tick_actions(s0, e, manifest_dirs.deep_view()),
{
    state.registry.set_font_size(state.font_size);
    let visible = match state.get_selected_project_path(manifest_dirs) {
        Some(root) => state.registry.show(&root),
        None => None,
    };
    let mut actions: Vec<UiAction> = Vec::new();
    if persist {
        actions.push(UiAction::PersistPrefs);
    }
    actions.push(UiAction::RefreshTree);
    actions.push(UiAction::ShowBuilder(visible));
    actions.push(UiAction::ApplyBuilderFont(state.font_size));
    proof {
        assert(final(state)@ == ticked(s0, e));
        assert(actions.deep_view() =~= tick_actions(s0, e, manifest_dirs.deep_view()));
    }
    actions
}

/// Stops every live builder on the way out of the event loop: returns
/// every process to terminate and every terminal surface to release, and
/// leaves the registry empty.
pub fn shutdown(state: &mut ShellState) -> (stopped: Vec<StoppedBuilder>)
    requires
        old(state).wf(),
    ensures
        final(state).wf(),
        final(state)@ == (ShellModel {
            builders: Map::<Seq<char>, BuilderModel>::empty(),
            ..old(state)@
        }),
        stopped@.len() == old(state)@.builders.dom().len(),
        forall|k: Seq<char>| #[trigger] old(state)@.builders.contains_key(k) ==> exists|i: int|
            0 <= i < stopped@.len() && ticket_matches(old(state)@.builders, stopped@[i], k),
        forall|i: int|
            0 <= i < stopped@.len() ==> ticket_sourced(old(state)@.builders, #[trigger] stopped@[i]),
{
    state.registry.stop_all()
}


/// Receiving the quit notification and reaching the end of the IPC
/// channel are handled identically: both deterministically set the quit
/// flag and ask for the same refreshes. The loop then exits on the flag,
/// and stopping every builder — [`shutdown`] — follows before the program
/// ends.
pub proof fn lemma_quit_paths_agree(s: ShellModel, manifests: Seq<Seq<char>>)
    ensures
        ticked(s, PollEventModel::ChannelClosed) == ticked(
            s,
            PollEventModel::Received(MessageModel::VimLeave),
        ),
        tick_actions(s, PollEventModel::ChannelClosed, manifests) == tick_actions(
            s,
            PollEventModel::Received(MessageModel::VimLeave),
            manifests,
        ),
        ticked(s, PollEventModel::ChannelClosed).quit,
{
}

/// A buffer-entered notification moves the selection to the path it
/// carries, and the same tick asks for the preference write, the tree
/// refresh, the visible-builder refresh and the font broadcast, in that
/// fixed order, all computed against the updated selection.
pub proof fn lemma_buffer_entered_order(s: ShellModel, p: Seq<char>, manifests: Seq<Seq<char>>)
    ensures
        ticked(s, PollEventModel::Received(MessageModel::BufferEntered(p))).selection == Some(p),
        tick_actions(s, PollEventModel::Received(MessageModel::BufferEntered(p)), manifests)
            == seq![
            UiActionModel::PersistPrefs,
            UiActionModel::RefreshTree,
            UiActionModel::ShowBuilder(
                visible_terminal(
                    ticked(s, PollEventModel::Received(MessageModel::BufferEntered(p))),
                    manifests,
                ),
            ),
            UiActionModel::ApplyBuilderFont(s.font_size),
        ],
{
    let e = PollEventModel::Received(MessageModel::BufferEntered(p));
    assert(tick_actions(s, e, manifests) =~= seq![
        UiActionModel::PersistPrefs,
        UiActionModel::RefreshTree,
        UiActionModel::ShowBuilder(visible_terminal(ticked(s, e), manifests)),
        UiActionModel::ApplyBuilderFont(s.font_size),
    ]);
}

/// A malformed or unknown frame is dropped without a trace: provided the
/// builder terminals already carry the broadcast font size, the tick for
/// an ignored message changes no state at all, and in particular the quit
/// flag keeps its value, so the loop continues.
pub proof fn lemma_unrecognized_no_change(s: ShellModel, manifests: Seq<Seq<char>>)
    requires
        forall|k: Seq<char>| #[trigger] s.builders.contains_key(k) ==> s.builders[k].font_size
            == s.font_size,
    ensures
        ticked(s, PollEventModel::Received(MessageModel::Unrecognized)) == s,
        tick_actions(s, PollEventModel::Received(MessageModel::Unrecognized), manifests)
            == refresh_batch(s, manifests),
{
    assert(font_model(s.builders, s.font_size) =~= s.builders);
}

} // verus!
