//! The host's side of the reload protocol: when the game module is loaded
//! and reloaded, and what time it is told has passed.
//!
//! The host owns the window, the arenas of game state and GPU state, and the
//! loaded module. This module decides; the host acts on the actions it is
//! handed, in order.

use vstd::prelude::*;

verus! {

/// Where the build puts the game module, on Unix.
pub const GAME_LIB_DIR: &'static str = "./af/target/debug/";

/// The game module as the build produces it, on Unix.
pub const GAME_LIB_PATH: &'static str = "./af/target/debug/libaf.so";

/// The stable copy of the game module that is loaded, on Unix.
pub const GAME_LIB_FILE: &'static str = "./libaf.so";

/// The game module as the build produces it, on Windows.
pub const GAME_LIB_PATH_WINDOWS: &'static str = "./af/target/debug/af.dll";

/// The stable copy of the game module that is loaded, on Windows.
pub const GAME_LIB_FILE_WINDOWS: &'static str = "./af.dll";

/// The name of the module's entry point that sets up or renews its state.
pub const LOAD_SYMBOL: &'static str = "load";

/// The name of the module's entry point that advances it by a frame.
pub const UPDATE_SYMBOL: &'static str = "update";

/// The bytes of the arena for the game state.
pub const GAME_ARENA_BYTES: usize = 4096;

/// The bytes of the arena for the GPU state.
pub const GL_ARENA_BYTES: usize = 1024;

/// The time of a frame when no frame came before it, in seconds: the number
/// one sixtieth as a bit pattern.
pub const NOMINAL_FRAME_SECONDS: u32 = 0x3c88_8889;

/// The state of the host.
#[derive(Clone, Copy, Debug, PartialEq, Eq, Structural)]
pub enum HostState {
    /// No module is loaded.
    Cold,
    /// A module is loaded and the arenas hold its state. `last_frame_time`
    /// is the counter reading of the previous frame, 0 before the first.
    Running { last_frame_time: i64 },
}

/// The time that `update` is told has passed.
#[derive(Clone, Copy, Debug, PartialEq, Eq, Structural)]
pub enum Elapsed {
    /// The nominal time of a frame, for the frame that has none before it.
    Nominal,
    /// The ticks of the performance counter since the previous frame. The
    /// counter's frequency turns them into seconds.
    Ticks { ticks: i128 },
}

/// One thing for the host to do.
#[derive(Clone, Copy, Debug, PartialEq, Eq, Structural)]
pub enum HostAction {
    /// Allocate the two arenas. They are never freed or cleared.
    AllocateArenas,
    /// Let go of the loaded module.
    DropLibrary,
    /// Copy the module from where the build puts it to the stable path, so
    /// that the build's output is never locked.
    CopyLibrary,
    /// Load the module from the stable path.
    LoadLibrary,
    /// Find the module's two entry points.
    ResolveSymbols,
    /// Start the thread that watches for a new module.
    SpawnWatcher,
    /// Call the module's `load` with the arenas.
    CallLoad { first_load: bool },
    /// Call the module's `update` with the arenas and the time passed.
    CallUpdate { elapsed: Elapsed },
}

/// What the host does to go from cold to running.
pub open spec fn start_actions() -> Seq<HostAction> {
    seq![
        HostAction::AllocateArenas,
        HostAction::CopyLibrary,
        HostAction::LoadLibrary,
        HostAction::ResolveSymbols,
        HostAction::SpawnWatcher,
        HostAction::CallLoad { first_load: true },
    ]
}

/// What the host does to swap the module for a new one. The arenas are not
/// touched.
pub open spec fn reload_actions() -> Seq<HostAction> {
    seq![
        HostAction::DropLibrary,
        HostAction::CopyLibrary,
        HostAction::LoadLibrary,
        HostAction::ResolveSymbols,
        HostAction::CallLoad { first_load: false },
    ]
}

/// The time passed between the previous frame's counter reading and this
/// one's.
pub open spec fn elapsed_between(last_frame_time: i64, now: i64) -> Elapsed {
    if last_frame_time == 0 {
        Elapsed::Nominal
    } else {
        Elapsed::Ticks { ticks: (now - last_frame_time) as i128 }
    }
}

impl HostState {
    /// The state after the host has started.
    pub open spec fn started(self) -> HostState {
        match self {
            HostState::Cold => HostState::Running { last_frame_time: 0 },
            running => running,
        }
    }

    /// The state after a frame at counter reading `now`.
    pub open spec fn after_frame(self, now: i64) -> HostState {
        match self {
            HostState::Cold => HostState::Cold,
            HostState::Running { .. } => HostState::Running { last_frame_time: now },
        }
    }

    /// What the host does in a frame at counter reading `now`: a pending
    /// reload first, then the module's `update`. A cold host does nothing.
    pub open spec fn frame_actions(self, now: i64, reload_pending: bool) -> Seq<HostAction> {
        match self {
            HostState::Cold => Seq::empty(),
            HostState::Running { last_frame_time } => (if reload_pending {
                reload_actions()
            } else {
                Seq::empty()
            }) + seq![HostAction::CallUpdate { elapsed: elapsed_between(last_frame_time, now) }],
        }
    }

    /// The state of a host that has loaded nothing.
    pub fn new() -> (state: HostState)
        ensures
            state == HostState::Cold,
    {
        HostState::Cold
    }

    /// Starts a cold host: the arenas are allocated, the module is copied
    /// and loaded, and its `load` is called for the first time. A host that
    /// runs already is left alone and has nothing to do.
    pub fn start(&mut self) -> (actions: Vec<HostAction>)
        ensures
            *final(self) == old(self).started(),
            actions@ == if *old(self) == HostState::Cold {
                start_actions()
            } else {
                Seq::<HostAction>::empty()
            },
    {
        let mut actions: Vec<HostAction> = Vec::new();
        match self {
            HostState::Cold => {
                actions.push(HostAction::AllocateArenas);
                actions.push(HostAction::CopyLibrary);
                actions.push(HostAction::LoadLibrary);
                actions.push(HostAction::ResolveSymbols);
                actions.push(HostAction::SpawnWatcher);
                actions.push(HostAction::CallLoad { first_load: true });
                assert(actions@ =~= start_actions());
                *self = HostState::Running { last_frame_time: 0 };
            },
            HostState::Running { .. } => {},
        }
        actions
    }

    /// Runs one frame at counter reading `now`. `reload_pending` says
    /// whether the watcher has signalled a new module since the last frame.
    /// A pending reload is carried out before `update` is called; it calls
    /// `load` with `first_load` false and leaves the arenas as they are.
    /// `update` is told the ticks since the previous frame, or the nominal
    /// frame time when there was none.
    pub fn frame(&mut self, now: i64, reload_pending: bool) -> (actions: Vec<HostAction>)
        ensures
            *final(self) == old(self).after_frame(now),
            actions@ == old(self).frame_actions(now, reload_pending),
    {
        let mut actions: Vec<HostAction> = Vec::new();
        match *self {
            HostState::Cold => {},
            HostState::Running { last_frame_time } => {
                if reload_pending {
                    actions.push(HostAction::DropLibrary);
                    actions.push(HostAction::CopyLibrary);
                    actions.push(HostAction::LoadLibrary);
                    actions.push(HostAction::ResolveSymbols);
                    actions.push(HostAction::CallLoad { first_load: false });
                    assert(actions@ =~= reload_actions());
                }
                let elapsed = if last_frame_time == 0 {
                    Elapsed::Nominal
                } else {
                    Elapsed::Ticks { ticks: now as i128 - last_frame_time as i128 }
                };
                actions.push(HostAction::CallUpdate { elapsed: elapsed });
                assert(actions@ =~= old(self).frame_actions(now, reload_pending));
                *self = HostState::Running { last_frame_time: now };
            },
        }
        actions
    }
}

/// In a frame, `load` is never called for the first time, nothing is
/// allocated, and `update` is called exactly once, as the last action. A
/// frame without a pending reload calls nothing but `update`.
pub proof fn lemma_frame_keeps_arenas(last_frame_time: i64, now: i64, reload_pending: bool)
    ensures
        ({
            let actions = (HostState::Running { last_frame_time }).frame_actions(
                now,
                reload_pending,
            );
            &&& actions.len() > 0
            &&& actions.last() == HostAction::CallUpdate {
                elapsed: elapsed_between(last_frame_time, now),
            }
            &&& forall|i: int|
                0 <= i < actions.len() ==> #[trigger] actions[i] != HostAction::AllocateArenas
                    && actions[i] != (HostAction::CallLoad { first_load: true })
            &&& forall|i: int| 0 <= i < actions.len() - 1 ==> !(#[trigger] actions[i] is CallUpdate)
            &&& !reload_pending ==> actions.len() == 1
        }),
{
}

} // verus!
