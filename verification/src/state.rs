use vstd::prelude::*;

verus! {

/// Outer lifecycle state: whether the game world exists at all. It is
/// mutated only through explicit transition requests handed to the tick,
/// and read by every gated system.
#[derive(Clone, Copy, PartialEq, Eq, Structural, Debug, Hash)]
pub enum GameState {
    Menu,
    Game,
}

/// Sub-state active only while the outer state is `Game`. `Disabled` is
/// the only value before the lifecycle bootstrap runs; the bootstrap
/// requests `Main` exactly once per entry into `Game`. `State` is a
/// reserved status-bar mode: representable, but never entered here.
#[derive(Clone, Copy, PartialEq, Eq, Structural, Debug, Hash)]
pub enum PlayState {
    Main,
    State,
    Disabled,
}

impl Default for PlayState {
    /// The play state starts out `Disabled`.
    fn default() -> (r: Self)
        ensures
            r == PlayState::Disabled,
    {
        PlayState::Disabled
    }
}

} // verus!
