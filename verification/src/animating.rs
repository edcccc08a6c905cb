//! Which animation a figure begins with.

use vstd::prelude::*;

verus! {

/// The clip that a figure plays from the start, and the animation player that
/// plays it, both by name.
#[derive(Clone, Debug)]
pub struct InitialAnimation {
    pub player_name: String,
    pub clip_name: String,
}

impl InitialAnimation {
    /// Names the animation player and the clip.
    pub fn new(player_name: &str, clip_name: &str) -> (animation: InitialAnimation)
        ensures
            animation.player_name@ == player_name@,
            animation.clip_name@ == clip_name@,
    {
        InitialAnimation { player_name: player_name.to_owned(), clip_name: clip_name.to_owned() }
    }
}

} // verus!
