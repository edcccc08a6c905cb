//! What the menus do when their buttons are used.
//!
//! Drawing the menus and reading the pointer and the keys is the caller's
//! part. It reports which buttons were used in a frame, and gets back what
//! follows from it.

use crate::level::format_level_name;
use crate::level::formatted_level_name;
use crate::state::AppState;
use vstd::prelude::*;

verus! {

/// The widgets that the focus can be sent to by name.
#[derive(Clone, Copy, Debug, PartialEq, Eq, Structural)]
pub enum FocusLabel {
    Start,
    Exit,
    NextLevel,
    BackToMainMenu,
    CurrentLevel,
}

/// What follows from a frame of a menu.
#[derive(Clone, Copy, Debug, PartialEq, Eq, Structural)]
pub struct MenuOutcome {
    /// The state to move to, if any.
    pub next_state: Option<AppState>,
    /// The widget to send the focus to, if any.
    pub focus: Option<FocusLabel>,
    /// Whether pending input is dropped, so that it does not reach the next
    /// menu.
    pub clear_input: bool,
}

impl MenuOutcome {
    /// Nothing happens.
    pub open spec fn nothing() -> MenuOutcome {
        MenuOutcome { next_state: None, focus: None, clear_input: false }
    }

    /// The outcome after a button that moves to `state`.
    pub open spec fn moved(self, state: AppState) -> MenuOutcome {
        MenuOutcome { next_state: Some(state), ..self }
    }

    /// The outcome after a button that opens the menu `state`, drops pending
    /// input and sends the focus to `focus`.
    pub open spec fn opened(self, state: AppState, focus: FocusLabel) -> MenuOutcome {
        MenuOutcome { next_state: Some(state), focus: Some(focus), clear_input: true }
    }

    /// The outcome with the focus sent to `focus`.
    pub open spec fn focused(self, focus: FocusLabel) -> MenuOutcome {
        MenuOutcome { focus: Some(focus), ..self }
    }
}

/// The main menu: `Start` opens the level selection, with the focus on the
/// next level to play.
pub open spec fn main_menu_outcome(start: bool) -> MenuOutcome {
    if start {
        MenuOutcome::nothing().opened(AppState::LevelSelectMenu, FocusLabel::NextLevel)
    } else {
        MenuOutcome::nothing()
    }
}

/// Decides what follows from a frame of the main menu.
pub fn main_menu(start: bool) -> (outcome: MenuOutcome)
    ensures
        outcome == main_menu_outcome(start),
{
    if start {
        MenuOutcome {
            next_state: Some(AppState::LevelSelectMenu),
            focus: Some(FocusLabel::NextLevel),
            clear_input: true,
        }
    } else {
        MenuOutcome { next_state: None, focus: None, clear_input: false }
    }
}

/// The buttons of the pause menu that were used in a frame.
#[derive(Clone, Copy, Debug, PartialEq, Eq, Structural)]
pub struct PauseMenuInput {
    /// `Resume` was released.
    pub resume: bool,
    /// The player asked for the menu, which here means to leave it.
    pub menu_action: bool,
    /// `Retry` was released.
    pub retry: bool,
    /// `Level Select` was clicked.
    pub level_select: bool,
    /// `Main Menu` was clicked.
    pub main_menu: bool,
}

/// The pause menu. Its buttons are looked at from top to bottom, and a lower
/// one that was used in the same frame overrules a higher one.
pub open spec fn pause_menu_outcome(input: PauseMenuInput) -> MenuOutcome {
    let resumed = if input.resume || input.menu_action {
        MenuOutcome::nothing().moved(AppState::Game)
    } else {
        MenuOutcome::nothing()
    };
    let retried = if input.retry {
        resumed.moved(AppState::LoadLevel)
    } else {
        resumed
    };
    let selected = if input.level_select {
        retried.opened(AppState::LevelSelectMenu, FocusLabel::CurrentLevel)
    } else {
        retried
    };
    if input.main_menu {
        selected.opened(AppState::MainMenu, FocusLabel::Start)
    } else {
        selected
    }
}

/// Decides what follows from a frame of the pause menu.
pub fn pause_menu(input: &PauseMenuInput) -> (outcome: MenuOutcome)
    ensures
        outcome == pause_menu_outcome(*input),
{
    let mut outcome = MenuOutcome { next_state: None, focus: None, clear_input: false };
    if input.resume || input.menu_action {
        outcome.next_state = Some(AppState::Game);
    }
    if input.retry {
        outcome.next_state = Some(AppState::LoadLevel);
    }
    if input.level_select {
        outcome.next_state = Some(AppState::LevelSelectMenu);
        outcome.clear_input = true;
        outcome.focus = Some(FocusLabel::CurrentLevel);
    }
    if input.main_menu {
        outcome.next_state = Some(AppState::MainMenu);
        outcome.clear_input = true;
        outcome.focus = Some(FocusLabel::Start);
    }
    outcome
}

/// The buttons of the game-over menu that were used in a frame.
#[derive(Clone, Copy, Debug, PartialEq, Eq, Structural)]
pub struct GameOverMenuInput {
    /// The player asked for the menu.
    pub menu_action: bool,
    /// `Retry` was clicked.
    pub retry: bool,
    /// `Level Select` was clicked.
    pub level_select: bool,
    /// `Main Menu` was clicked.
    pub main_menu: bool,
}

/// The game-over menu. Asking for the menu sends the focus to the way back;
/// the buttons are looked at from top to bottom, and a lower one that was
/// used in the same frame overrules a higher one.
pub open spec fn game_over_menu_outcome(input: GameOverMenuInput) -> MenuOutcome {
    let asked = if input.menu_action {
        MenuOutcome::nothing().focused(FocusLabel::BackToMainMenu)
    } else {
        MenuOutcome::nothing()
    };
    let retried = if input.retry {
        asked.moved(AppState::LoadLevel)
    } else {
        asked
    };
    let selected = if input.level_select {
        retried.opened(AppState::LevelSelectMenu, FocusLabel::CurrentLevel)
    } else {
        retried
    };
    if input.main_menu {
        selected.opened(AppState::MainMenu, FocusLabel::Start)
    } else {
        selected
    }
}

/// Decides what follows from a frame of the game-over menu.
pub fn game_over_menu(input: &GameOverMenuInput) -> (outcome: MenuOutcome)
    ensures
        outcome == game_over_menu_outcome(*input),
{
    let mut outcome = MenuOutcome { next_state: None, focus: None, clear_input: false };
    if input.menu_action {
        outcome.focus = Some(FocusLabel::BackToMainMenu);
    }
    if input.retry {
        outcome.next_state = Some(AppState::LoadLevel);
    }
    if input.level_select {
        outcome.next_state = Some(AppState::LevelSelectMenu);
        outcome.clear_input = true;
        outcome.focus = Some(FocusLabel::CurrentLevel);
    }
    if input.main_menu {
        outcome.next_state = Some(AppState::MainMenu);
        outcome.clear_input = true;
        outcome.focus = Some(FocusLabel::Start);
    }
    outcome
}

/// How far the player has come.
#[derive(Debug)]
pub struct LevelProgress {
    /// The file of the level that was completed just now, if one was.
    pub just_completed: Option<String>,
    /// The file of the level that is being played, or was played last.
    pub current_level: Option<String>,
    /// How many levels the player may choose from: those completed and the
    /// next one.
    pub num_levels_available: usize,
}

/// One button of the level selection.
#[derive(Debug)]
pub struct LevelButton {
    /// The level's place in the index of levels.
    pub index: usize,
    /// The name that the button shows.
    pub name: String,
    /// Whether the level is marked as completed.
    pub complete: bool,
    /// Whether the button goes by the label of the next level to play.
    pub next_level: bool,
    /// Whether the button goes by the label of the current level.
    pub current_level: bool,
}

/// The button for the level at place `index`, of `available` levels that the
/// player may choose from. All but the last of these are completed; the last
/// is the next to play.
pub open spec fn is_level_button(
    button: LevelButton,
    index: int,
    filename: Seq<char>,
    available: int,
    current: Option<Seq<char>>,
) -> bool {
    &&& button.index == index
    &&& button.name@ == formatted_level_name(filename)
    &&& button.complete == (index + 1 < available)
    &&& button.next_level == (index + 1 == available)
    &&& button.current_level == (current == Some(filename))
}

/// The file of the current level, as a sequence of characters.
pub open spec fn current_of(progress: LevelProgress) -> Option<Seq<char>> {
    match progress.current_level {
        Some(filename) => Some(filename@),
        None => None,
    }
}

/// How many buttons the level selection shows: one for each level that the
/// player may choose from, as far as the index of levels goes.
pub open spec fn shown_levels(levels: int, available: int) -> int {
    if levels < available {
        levels
    } else {
        available
    }
}

/// Lists the buttons of the level selection, in the order of the index of
/// levels.
pub fn level_select_buttons(filenames: &Vec<String>, progress: &LevelProgress) -> (buttons: Vec<
    LevelButton,
>)
    ensures
        buttons.len() == shown_levels(
            filenames.len() as int,
            progress.num_levels_available as int,
        ),
        forall|i: int|
            0 <= i < buttons.len() ==> is_level_button(
                #[trigger] buttons[i],
                i,
                filenames[i]@,
                progress.num_levels_available as int,
                current_of(*progress),
            ),
{
    let mut buttons: Vec<LevelButton> = Vec::new();
    let mut index: usize = 0;
    while index < filenames.len() && index < progress.num_levels_available
        invariant
            index <= filenames.len(),
            index <= progress.num_levels_available,
            buttons.len() == index,
            forall|i: int|
                0 <= i < index ==> is_level_button(
                    #[trigger] buttons[i],
                    i,
                    filenames[i]@,
                    progress.num_levels_available as int,
                    current_of(*progress),
                ),
        decreases filenames.len() - index,
    {
        let filename = &filenames[index];
        let current = match &progress.current_level {
            Some(current) => *current == *filename,
            None => false,
        };
        buttons.push(
            LevelButton {
                index,
                name: format_level_name(filename.as_str()),
                complete: index + 1 < progress.num_levels_available,
                next_level: index + 1 == progress.num_levels_available,
                current_level: current,
            },
        );
        index += 1;
    }
    buttons
}

/// Tells whether the way back to the main menu also goes by the label of the
/// next level to play: when the index of levels is not there yet, or holds
/// fewer levels than the player may choose from, so that no level's button
/// will take the label.
pub fn back_button_is_next_level(levels: Option<usize>, progress: &LevelProgress) -> (labelled: bool)
    ensures
        labelled == match levels {
            Some(levels) => levels < progress.num_levels_available,
            None => true,
        },
{
    match levels {
        Some(levels) => levels < progress.num_levels_available,
        None => true,
    }
}

/// The line that tells which level was completed just now.
pub fn finished_label(just_completed: &str) -> (label: String)
    ensures
        label@ == "Finished "@ + formatted_level_name(just_completed@),
{
    let name = format_level_name(just_completed);
    String::from_str("Finished ").concat(name.as_str())
}

/// Chooses a level from the level selection: it becomes the current level,
/// and the game moves on to load it.
pub fn choose_level(progress: &mut LevelProgress, filename: &String) -> (next: AppState)
    ensures
        next == AppState::LoadLevel,
        final(progress).current_level == Some(*filename),
        final(progress).just_completed == old(progress).just_completed,
        final(progress).num_levels_available == old(progress).num_levels_available,
{
    progress.current_level = Some(filename.clone());
    AppState::LoadLevel
}

/// `place` is where the file `filename` stands first in the index of levels.
pub open spec fn is_place_of(filenames: Seq<Seq<char>>, filename: Seq<char>, place: int) -> bool {
    &&& 0 <= place < filenames.len()
    &&& filenames[place] == filename
    &&& forall|i: int| 0 <= i < place ==> #[trigger] filenames[i] != filename
}

/// The files of the index of levels, as sequences of characters.
pub open spec fn names_of(filenames: Seq<String>) -> Seq<Seq<char>> {
    filenames.map_values(|filename: String| filename@)
}

/// Finds where a file stands first in the index of levels.
pub fn find_level(filenames: &Vec<String>, filename: &String) -> (place: Option<usize>)
    ensures
        match place {
            Some(place) => is_place_of(names_of(filenames@), filename@, place as int),
            None => forall|i: int| !is_place_of(names_of(filenames@), filename@, i),
        },
{
    let mut i: usize = 0;
    while i < filenames.len()
        invariant
            i <= filenames.len(),
            forall|j: int| 0 <= j < i ==> #[trigger] names_of(filenames@)[j] != filename@,
        decreases filenames.len() - i,
    {
        if filenames[i] == *filename {
            assert(names_of(filenames@)[i as int] == filename@);
            return Some(i);
        }
        assert(names_of(filenames@)[i as int] != filename@);
        i += 1;
    }
    None
}

/// How many levels the player may choose from after completing the level at
/// `place`: as many as before, and at least that level and the one after it.
pub open spec fn available_after(available: int, place: int) -> int {
    if available < place + 2 {
        place + 2
    } else {
        available
    }
}

/// How many levels the player may choose from after completing the current
/// level: one more than lead up to it if it stands in the index of levels,
/// and never fewer than before.
pub open spec fn available_after_completion(
    progress: LevelProgress,
    filenames: Seq<Seq<char>>,
) -> int {
    match progress.current_level {
        Some(current) => if exists|place: int| is_place_of(filenames, current@, place) {
            available_after(
                progress.num_levels_available as int,
                choose|place: int| is_place_of(filenames, current@, place),
            )
        } else {
            progress.num_levels_available as int
        },
        None => progress.num_levels_available as int,
    }
}

/// Takes note that the current level was completed: it is marked as
/// completed just now, and if it stands in the index of levels, the level
/// after it may be chosen from now on. The game moves on to the level
/// selection.
pub fn complete_level(progress: &mut LevelProgress, filenames: &Vec<String>) -> (next: AppState)
    requires
        filenames.len() < usize::MAX,
    ensures
        next == AppState::LevelSelectMenu,
        final(progress).just_completed == old(progress).current_level,
        final(progress).current_level == old(progress).current_level,
        final(progress).num_levels_available == available_after_completion(
            *old(progress),
            names_of(filenames@),
        ),
{
    let place = match &progress.current_level {
        Some(current) => find_level(filenames, current),
        None => None,
    };
    match place {
        Some(place) => {
            if progress.num_levels_available < place + 2 {
                progress.num_levels_available = place + 2;
            }
        },
        None => {},
    }
    progress.just_completed = progress.current_level.clone();
    AppState::LevelSelectMenu
}

/// Decides what follows from a frame of the level selection, apart from its
/// level buttons: asking for the menu sends the focus to the way back, and
/// the way back leads to the main menu.
pub fn level_select_menu(menu_action: bool, back: bool) -> (outcome: MenuOutcome)
    ensures
        outcome == (MenuOutcome {
            next_state: if back {
                Some(AppState::MainMenu)
            } else {
                None
            },
            focus: if menu_action {
                Some(FocusLabel::BackToMainMenu)
            } else {
                None
            },
            clear_input: false,
        }),
{
    MenuOutcome {
        next_state: if back {
            Some(AppState::MainMenu)
        } else {
            None
        },
        focus: if menu_action {
            Some(FocusLabel::BackToMainMenu)
        } else {
            None
        },
        clear_input: false,
    }
}

} // verus!
