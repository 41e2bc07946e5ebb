use dungeon_of_madness::names::code_of_name;
use dungeon_of_madness::names::level_name;
use dungeon_of_madness::names::level_name_slice;
use dungeon_of_madness::names::start_hall_name;

#[test]
fn level_names_follow_the_prefix_and_decimal_code() {
    assert_eq!(level_name(0), "Level_0");
    assert_eq!(level_name(7), "Level_7");
    assert_eq!(level_name(10), "Level_10");
    assert_eq!(level_name(14), "Level_14");
    assert_eq!(start_hall_name(), "Start_Hall");
}

#[test]
fn every_produced_name_parses_back_to_its_code() {
    for code in 0u8..=14 {
        assert_eq!(code_of_name(level_name_slice(code)), Some(code));
        assert_eq!(code_of_name(level_name(code).as_str()), Some(code));
    }
}

#[test]
fn the_start_chunk_name_is_the_reserved_code_0() {
    assert_eq!(code_of_name("Start_Hall"), Some(0));
}

#[test]
fn names_outside_the_convention_do_not_parse() {
    assert_eq!(code_of_name(""), None);
    assert_eq!(code_of_name("Level_"), None);
    assert_eq!(code_of_name("Level_15"), None);
    assert_eq!(code_of_name("level_3"), None);
    assert_eq!(code_of_name("Start_Hal"), None);
    assert_eq!(code_of_name("Level_3 "), None);
    assert_eq!(code_of_name("Dungeon"), None);
}
