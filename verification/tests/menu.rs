use maze_of_many_missiles::menu::{
    back_button_is_next_level, choose_level, complete_level, find_level, finished_label,
    game_over_menu, level_select_buttons, level_select_menu, main_menu, pause_menu, FocusLabel,
    GameOverMenuInput, LevelProgress, MenuOutcome, PauseMenuInput,
};
use maze_of_many_missiles::state::AppState;

const NOTHING: MenuOutcome = MenuOutcome { next_state: None, focus: None, clear_input: false };

fn progress(available: usize, current: Option<&str>) -> LevelProgress {
    LevelProgress {
        just_completed: None,
        current_level: current.map(|name| name.to_owned()),
        num_levels_available: available,
    }
}

#[test]
fn start_opens_the_level_selection() {
    assert_eq!(main_menu(false), NOTHING);
    assert_eq!(
        main_menu(true),
        MenuOutcome {
            next_state: Some(AppState::LevelSelectMenu),
            focus: Some(FocusLabel::NextLevel),
            clear_input: true,
        }
    );
}

#[test]
fn buttons_of_the_pause_menu() {
    let none = PauseMenuInput {
        resume: false,
        menu_action: false,
        retry: false,
        level_select: false,
        main_menu: false,
    };
    assert_eq!(pause_menu(&none), NOTHING);
    let resumed = MenuOutcome { next_state: Some(AppState::Game), ..NOTHING };
    assert_eq!(pause_menu(&PauseMenuInput { resume: true, ..none }), resumed);
    assert_eq!(pause_menu(&PauseMenuInput { menu_action: true, ..none }), resumed);
    assert_eq!(
        pause_menu(&PauseMenuInput { retry: true, ..none }),
        MenuOutcome { next_state: Some(AppState::LoadLevel), ..NOTHING }
    );
    assert_eq!(
        pause_menu(&PauseMenuInput { level_select: true, ..none }),
        MenuOutcome {
            next_state: Some(AppState::LevelSelectMenu),
            focus: Some(FocusLabel::CurrentLevel),
            clear_input: true,
        }
    );
    assert_eq!(
        pause_menu(&PauseMenuInput { main_menu: true, ..none }),
        MenuOutcome {
            next_state: Some(AppState::MainMenu),
            focus: Some(FocusLabel::Start),
            clear_input: true,
        }
    );
}

#[test]
fn a_lower_button_overrules_a_higher_one() {
    let all = PauseMenuInput {
        resume: true,
        menu_action: true,
        retry: true,
        level_select: true,
        main_menu: true,
    };
    assert_eq!(
        pause_menu(&all),
        MenuOutcome {
            next_state: Some(AppState::MainMenu),
            focus: Some(FocusLabel::Start),
            clear_input: true,
        }
    );
    assert_eq!(
        pause_menu(&PauseMenuInput { main_menu: false, ..all }),
        MenuOutcome {
            next_state: Some(AppState::LevelSelectMenu),
            focus: Some(FocusLabel::CurrentLevel),
            clear_input: true,
        }
    );
    assert_eq!(
        pause_menu(&PauseMenuInput { main_menu: false, level_select: false, ..all }),
        MenuOutcome { next_state: Some(AppState::LoadLevel), ..NOTHING }
    );
}

#[test]
fn buttons_of_the_game_over_menu() {
    let none =
        GameOverMenuInput { menu_action: false, retry: false, level_select: false, main_menu: false };
    assert_eq!(game_over_menu(&none), NOTHING);
    assert_eq!(
        game_over_menu(&GameOverMenuInput { menu_action: true, ..none }),
        MenuOutcome { focus: Some(FocusLabel::BackToMainMenu), ..NOTHING }
    );
    assert_eq!(
        game_over_menu(&GameOverMenuInput { retry: true, ..none }),
        MenuOutcome { next_state: Some(AppState::LoadLevel), ..NOTHING }
    );
    assert_eq!(
        game_over_menu(&GameOverMenuInput { menu_action: true, retry: true, ..none }),
        MenuOutcome {
            next_state: Some(AppState::LoadLevel),
            focus: Some(FocusLabel::BackToMainMenu),
            clear_input: false,
        }
    );
    assert_eq!(
        game_over_menu(&GameOverMenuInput { menu_action: true, level_select: true, ..none }),
        MenuOutcome {
            next_state: Some(AppState::LevelSelectMenu),
            focus: Some(FocusLabel::CurrentLevel),
            clear_input: true,
        }
    );
    assert_eq!(
        game_over_menu(&GameOverMenuInput { main_menu: true, level_select: true, ..none }),
        MenuOutcome {
            next_state: Some(AppState::MainMenu),
            focus: Some(FocusLabel::Start),
            clear_input: true,
        }
    );
}

#[test]
fn the_level_selection_apart_from_its_levels() {
    assert_eq!(level_select_menu(false, false), NOTHING);
    assert_eq!(
        level_select_menu(true, false),
        MenuOutcome { focus: Some(FocusLabel::BackToMainMenu), ..NOTHING }
    );
    assert_eq!(
        level_select_menu(false, true),
        MenuOutcome { next_state: Some(AppState::MainMenu), ..NOTHING }
    );
    assert_eq!(
        level_select_menu(true, true),
        MenuOutcome {
            next_state: Some(AppState::MainMenu),
            focus: Some(FocusLabel::BackToMainMenu),
            clear_input: false,
        }
    );
}

#[test]
fn one_button_for_each_level_that_may_be_chosen() {
    let filenames: Vec<String> =
        ["first_steps.yol", "second.yol", "the_third.yol", "fourth.yol"].iter().map(|n| n.to_string()).collect();
    let buttons = level_select_buttons(&filenames, &progress(3, Some("second.yol")));
    assert_eq!(buttons.len(), 3);
    let names: Vec<&str> = buttons.iter().map(|b| b.name.as_str()).collect();
    assert_eq!(names, vec!["first steps", "second", "the third"]);
    let indices: Vec<usize> = buttons.iter().map(|b| b.index).collect();
    assert_eq!(indices, vec![0, 1, 2]);
    let complete: Vec<bool> = buttons.iter().map(|b| b.complete).collect();
    assert_eq!(complete, vec![true, true, false]);
    let next: Vec<bool> = buttons.iter().map(|b| b.next_level).collect();
    assert_eq!(next, vec![false, false, true]);
    let current: Vec<bool> = buttons.iter().map(|b| b.current_level).collect();
    assert_eq!(current, vec![false, true, false]);
}

#[test]
fn fewer_levels_than_may_be_chosen() {
    let filenames: Vec<String> = ["a.yol", "b.yol"].iter().map(|n| n.to_string()).collect();
    let buttons = level_select_buttons(&filenames, &progress(5, None));
    assert_eq!(buttons.len(), 2);
    assert!(buttons.iter().all(|b| b.complete && !b.next_level && !b.current_level));
    assert!(level_select_buttons(&filenames, &progress(0, None)).is_empty());
    assert!(level_select_buttons(&Vec::new(), &progress(3, None)).is_empty());
    let all = level_select_buttons(&filenames, &progress(usize::MAX, Some("b.yol")));
    assert_eq!(all.len(), 2);
    assert!(all[1].current_level);
}

#[test]
fn where_the_label_of_the_next_level_goes() {
    assert!(back_button_is_next_level(None, &progress(0, None)));
    assert!(back_button_is_next_level(Some(2), &progress(3, None)));
    assert!(!back_button_is_next_level(Some(3), &progress(3, None)));
    assert!(!back_button_is_next_level(Some(4), &progress(3, None)));
    assert!(!back_button_is_next_level(Some(0), &progress(0, None)));
}

#[test]
fn the_line_for_a_completed_level() {
    assert_eq!(finished_label("first_steps.yol"), "Finished first steps");
    assert_eq!(finished_label(""), "Finished ");
}

#[test]
fn choosing_a_level_loads_it() {
    let mut progress = LevelProgress {
        just_completed: Some("a.yol".to_owned()),
        current_level: Some("a.yol".to_owned()),
        num_levels_available: 2,
    };
    assert_eq!(choose_level(&mut progress, &"b.yol".to_owned()), AppState::LoadLevel);
    assert_eq!(progress.current_level, Some("b.yol".to_owned()));
    assert_eq!(progress.just_completed, Some("a.yol".to_owned()));
    assert_eq!(progress.num_levels_available, 2);
}

fn index() -> Vec<String> {
    ["a.yol", "b.yol", "c.yol", "b.yol"].iter().map(|name| name.to_string()).collect()
}

#[test]
fn finding_a_level_in_the_index() {
    assert_eq!(find_level(&index(), &"a.yol".to_owned()), Some(0));
    assert_eq!(find_level(&index(), &"b.yol".to_owned()), Some(1));
    assert_eq!(find_level(&index(), &"c.yol".to_owned()), Some(2));
    assert_eq!(find_level(&index(), &"d.yol".to_owned()), None);
    assert_eq!(find_level(&Vec::new(), &"a.yol".to_owned()), None);
}

#[test]
fn completing_a_level_opens_the_next() {
    let mut level_progress = progress(1, Some("a.yol"));
    assert_eq!(complete_level(&mut level_progress, &index()), AppState::LevelSelectMenu);
    assert_eq!(level_progress.num_levels_available, 2);
    assert_eq!(level_progress.just_completed, Some("a.yol".to_owned()));
    assert_eq!(level_progress.current_level, Some("a.yol".to_owned()));
    // Completing it again changes nothing.
    complete_level(&mut level_progress, &index());
    assert_eq!(level_progress.num_levels_available, 2);
    // Nor does completing an earlier level take anything away.
    let mut level_progress = progress(4, Some("b.yol"));
    complete_level(&mut level_progress, &index());
    assert_eq!(level_progress.num_levels_available, 4);
    // The last level opens one more than there are.
    let mut level_progress = progress(3, Some("c.yol"));
    complete_level(&mut level_progress, &index());
    assert_eq!(level_progress.num_levels_available, 4);
}

#[test]
fn completing_a_level_outside_the_index_opens_nothing() {
    let mut level_progress = progress(1, Some("elsewhere.yol"));
    complete_level(&mut level_progress, &index());
    assert_eq!(level_progress.num_levels_available, 1);
    assert_eq!(level_progress.just_completed, Some("elsewhere.yol".to_owned()));
    let mut level_progress = progress(1, None);
    level_progress.just_completed = Some("a.yol".to_owned());
    complete_level(&mut level_progress, &index());
    assert_eq!(level_progress.num_levels_available, 1);
    assert_eq!(level_progress.just_completed, None);
}
