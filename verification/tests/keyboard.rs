use pokebot_agent::input::{Button, ControllerCommand};
use pokebot_agent::keyboard::{key_position, moves, taps, validate_name};

#[test]
fn layout_positions() {
    assert_eq!(key_position('A'), Some((0, 0)));
    assert_eq!(key_position('S'), Some((6, 2)));
    assert_eq!(key_position('Z'), Some((6, 3)));
    assert_eq!(key_position(' '), None);
    assert_eq!(key_position('a'), None);
}

#[test]
fn moves_stay_in_grid() {
    assert_eq!(moves((0, 0), (2, 1)), vec![Button::Down, Button::Right, Button::Right]);
    assert_eq!(moves((6, 3), (0, 0)).len(), 9);
    assert!(moves((3, 2), (3, 2)).is_empty());
}

#[test]
fn validates_names() {
    assert!(validate_name("RED").is_ok());
    assert!(validate_name("").is_err());
    assert!(validate_name("TOOLONGX").is_err());
    assert!(validate_name("Red").is_err());
}

#[test]
fn every_refused_name_says_why() {
    let told = |name: &str| validate_name(name).unwrap_err();
    assert!(told("").contains("1"), "{}", told(""));
    assert!(told("Red").contains('e'), "{}", told("Red"));
    assert!(told("TOOLONGX").contains("7"), "{}", told("TOOLONGX"));
}

#[test]
fn taps_are_one_command() {
    assert!(matches!(taps(&vec![Button::Up, Button::Left]), ControllerCommand::Sequence(_)));
}
