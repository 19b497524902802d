use vstd::prelude::*;

verus! {

/// The screen the application is on. A run goes through these in the order
/// they are declared, each one once.
#[derive(Clone, Copy, Debug, PartialEq, Eq, Hash, Structural)]
pub enum AppState {
    Preload,
    LoadingAssets,
    Loading,
    MainMenu,
}

/// Position of a state in the order of a run.
pub open spec fn rank(s: AppState) -> int {
    match s {
        AppState::Preload => 0,
        AppState::LoadingAssets => 1,
        AppState::Loading => 2,
        AppState::MainMenu => 3,
    }
}

/// The whole run, first state first.
pub open spec fn run_order() -> Seq<AppState> {
    seq![AppState::Preload, AppState::LoadingAssets, AppState::Loading, AppState::MainMenu]
}

/// A sequence of states seen so far: the start of the run, not empty.
pub open spec fn is_run_prefix(h: Seq<AppState>) -> bool {
    1 <= h.len() <= 4 && h == run_order().take(h.len() as int)
}

impl AppState {
    /// Position of the state in the order of a run.
    pub fn rank(&self) -> (r: u8)
        ensures
            r as int == rank(*self),
    {
        match self {
            AppState::Preload => 0,
            AppState::LoadingAssets => 1,
            AppState::Loading => 2,
            AppState::MainMenu => 3,
        }
    }

    /// Whether the "please wait" label belongs on screen in this state.
    pub fn shows_loading_text(&self) -> (r: bool)
        ensures
            r == (*self is Preload || *self is LoadingAssets),
    {
        match self {
            AppState::Preload | AppState::LoadingAssets => true,
            _ => false,
        }
    }
}

} // verus!
