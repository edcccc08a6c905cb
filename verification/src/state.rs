//! The states that the game as a whole moves through.

use vstd::prelude::*;

verus! {

/// What the game is showing or doing.
#[derive(Clone, Copy, Debug, PartialEq, Eq, Hash, Structural)]
pub enum AppState {
    MainMenu,
    PauseMenu,
    LevelSelectMenu,
    LoadLevel,
    Editor,
    Game,
    LevelCompleted,
    GameOver,
}

impl Default for AppState {
    fn default() -> (state: AppState)
        ensures
            state == AppState::MainMenu,
    {
        AppState::MainMenu
    }
}

impl AppState {
    /// Whether a menu is on the screen in this state.
    pub fn is_menu(&self) -> (menu: bool)
        ensures
            menu == (*self is MainMenu || *self is PauseMenu || *self is LevelSelectMenu
                || *self is GameOver),
    {
        match self {
            AppState::MainMenu => true,
            AppState::PauseMenu => true,
            AppState::LevelSelectMenu => true,
            AppState::LoadLevel => false,
            AppState::Editor => false,
            AppState::Game => false,
            AppState::LevelCompleted => false,
            AppState::GameOver => true,
        }
    }
}

/// The two groups that the per-tick work falls into.
#[derive(Clone, Copy, Debug, PartialEq, Eq, Hash, Structural)]
pub enum During {
    /// Work on the menus.
    Menu,
    /// Work on the running game.
    Gameplay,
}

impl During {
    /// Whether the work of this group is done while the game is in `state`:
    /// menu work while a menu shows, gameplay work while the game runs.
    pub fn runs_in(&self, state: &AppState) -> (runs: bool)
        ensures
            runs == match *self {
                During::Menu => *state is MainMenu || *state is PauseMenu
                    || *state is LevelSelectMenu || *state is GameOver,
                During::Gameplay => *state is Game,
            },
    {
        match self {
            During::Menu => state.is_menu(),
            During::Gameplay => matches!(state, AppState::Game),
        }
    }
}

/// What the player can ask for at any time, whatever has the focus.
#[derive(Clone, Copy, Debug, PartialEq, Eq, Structural)]
pub enum ActionForKbgp {
    Menu,
    RestartLevel,
}

/// Tells whether the physics step runs in `state`: only while the game runs.
pub fn enable_disable_physics(state: &AppState) -> (active: bool)
    ensures
        active == (*state is Game),
{
    matches!(state, AppState::Game)
}

/// Gives the state that the running game moves to when the player asks for
/// `action`: the pause menu, or the level loaded anew.
pub fn handle_user_kbgp_actions(action: Option<ActionForKbgp>) -> (next: Option<AppState>)
    ensures
        next == match action {
            None => None::<AppState>,
            Some(ActionForKbgp::Menu) => Some(AppState::PauseMenu),
            Some(ActionForKbgp::RestartLevel) => Some(AppState::LoadLevel),
        },
{
    match action {
        None => None,
        Some(ActionForKbgp::Menu) => Some(AppState::PauseMenu),
        Some(ActionForKbgp::RestartLevel) => Some(AppState::LoadLevel),
    }
}

/// Menu work and gameplay work are never both done in one state.
pub proof fn lemma_menu_and_gameplay_exclude(state: AppState)
    ensures
        !((state is MainMenu || state is PauseMenu || state is LevelSelectMenu
            || state is GameOver) && state is Game),
{
}

} // verus!
