//! Core of a desktop shell that hosts a line-oriented editor as a child
//! process and drives per-project build subprocesses, each bound to its own
//! terminal surface.
//!
//! The verified core covers the editor IPC message protocol (decoding framed
//! notifications into messages), the builder process registry (spawn
//! bookkeeping, stopping, switching and font propagation), the shell state
//! with its cooperative event-loop decisions, and the preference/settings
//! merge logic. Process spawning, pipes, the pseudo-terminal and all GUI
//! rendering are collaborator calls performed by the surrounding application,
//! which hands plain values (paths, pids, decoded frames) into this core and
//! carries its decisions back out.
use vstd::prelude::*;

pub mod ipc;
pub mod registry;
pub mod settings;
pub mod shell;
pub mod tick;
pub mod paths;
pub mod prefs;

verus! {

/// Smallest font size the shell accepts for terminal surfaces.
pub const MIN_FONT_SIZE: i32 = 0;

/// Largest font size the shell accepts for terminal surfaces.
pub const MAX_FONT_SIZE: i32 = 50;

/// Font size a fresh shell starts with, and the size given to every newly
/// created builder terminal until a font broadcast is applied to it.
pub const DEFAULT_FONT_SIZE: i32 = 12;

/// One bundled editor-runtime file: where it goes below the data
/// directory, what it holds, and whether an existing copy is refreshed on
/// every start.
pub struct Resource {
    pub path: &'static [&'static str],
    pub data: &'static str,
    pub always_copy: bool,
}

/// The flag that asks for the headless half alone: no window, only the
/// editor process side of the session bootstrap.
pub open spec fn no_window_flag() -> Seq<char> {
    "-nw"@
}

/// Splits the command line for the session bootstrap: returns the
/// arguments with every occurrence of the no-window flag removed, and
/// whether the flag occurred, in which case the caller runs headless.
pub fn strip_no_window_flag(args: &Vec<String>) -> (r: (Vec<String>, bool))
    ensures
        r.0.deep_view() == args.deep_view().filter(|a: Seq<char>| a != no_window_flag()),
        r.1 == args.deep_view().contains(no_window_flag()),
{
    let ghost pred = |a: Seq<char>| a != no_window_flag();
    let flag: String = String::from_str("-nw");
    let mut kept: Vec<String> = Vec::new();
    let mut found = false;
    let mut i: usize = 0;
    proof {
        assert(kept.deep_view() =~= args.deep_view().take(0).filter(pred));
    }
    while i < args.len()
        invariant
            i <= args@.len(),
            flag@ == no_window_flag(),
            kept.deep_view() == args.deep_view().take(i as int).filter(pred),
            found == args.deep_view().take(i as int).contains(no_window_flag()),
            pred == (|a: Seq<char>| a != no_window_flag()),
        decreases args@.len() - i,
    {
        let ghost pre = kept.deep_view();
        proof {
            assert(args.deep_view().take(i + 1) =~= args.deep_view().take(i as int).push(
                args.deep_view()[i as int],
            ));
            args.deep_view().take(i as int).lemma_filter_push(args.deep_view()[i as int], pred);
            assert(args@[i as int]@ == args.deep_view()[i as int]);
        }
        if args[i] == flag {
            found = true;
            proof {
                assert(args.deep_view().take(i + 1)[i as int] == no_window_flag());
            }
        } else {
            kept.push(args[i].clone());
            proof {
                assert(kept.deep_view() =~= pre.push(args.deep_view()[i as int]));
            }
        }
        proof {
            if args.deep_view().take(i + 1).contains(no_window_flag()) {
                let w = choose|w: int|
                    0 <= w < i + 1 && #[trigger] args.deep_view().take(i + 1)[w]
                        == no_window_flag();
                if w < i {
                    assert(args.deep_view().take(i as int)[w] == no_window_flag());
                }
            }
        }
        i = i + 1;
    }
    proof {
        assert(args.deep_view().take(i as int) =~= args.deep_view());
    }
    (kept, found)
}

} // verus!
