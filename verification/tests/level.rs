use maze_of_many_missiles::level::{format_level_name, level_file_name};

#[test]
fn the_extension_is_dropped_and_underscores_become_spaces() {
    assert_eq!(format_level_name("My_First_Level.yol"), "My First Level");
    assert_eq!(format_level_name("level.yol"), "level");
    assert_eq!(format_level_name("no_extension"), "no extension");
    assert_eq!(format_level_name("plain"), "plain");
}

#[test]
fn only_the_extension_at_the_end_is_dropped() {
    assert_eq!(format_level_name("a.yol.yol"), "a.yol");
    assert_eq!(format_level_name("a.yol_b"), "a.yol b");
    assert_eq!(format_level_name(".yol"), "");
    assert_eq!(format_level_name("yol"), "yol");
    assert_eq!(format_level_name(""), "");
    assert_eq!(format_level_name("__.yol"), "  ");
    assert_eq!(format_level_name("Ünï_cödé.yol"), "Ünï cödé");
}

#[test]
fn the_file_of_a_level_has_the_extension_once() {
    assert_eq!(level_file_name("first"), "first.yol");
    assert_eq!(level_file_name("first.yol"), "first.yol");
    assert_eq!(level_file_name(""), ".yol");
    assert_eq!(level_file_name("first.yo"), "first.yo.yol");
    assert_eq!(level_file_name("first.yol "), "first.yol .yol");
}

#[test]
fn a_level_shows_under_one_name_with_or_without_extension() {
    for name in ["a_b", "a_b.yol", "", ".yol", "x.yol.yol"] {
        assert_eq!(format_level_name(&level_file_name(name)), format_level_name(name));
    }
}
