use pokebot_agent::console::{three_taps, ConsoleGuard, ConsoleLink, ConsoleScreen};
use pokebot_agent::input::{Button, ControllerCommand};

const SECOND: u64 = 1_000_000_000;

/// Feeds `screen` from `from` to `to` (in seconds) in 100 ms ticks; the labels
/// of the inputs sent, notes and readiness.
fn run(
    guard: &mut ConsoleGuard,
    from: u64,
    to: u64,
    screen: ConsoleScreen,
    link: ConsoleLink,
) -> (Vec<String>, Vec<String>, Option<String>) {
    let (mut acts, mut notes) = (Vec::new(), Vec::new());
    let mut t = from * SECOND;
    while t < to * SECOND {
        let tick = guard.step(t, screen, link);
        acts.extend(tick.act.map(|(label, _)| label));
        notes.extend(tick.note);
        if tick.ready.is_some() {
            return (acts, notes, tick.ready);
        }
        t += SECOND / 10;
    }
    (acts, notes, None)
}

use pokebot_agent::console::ConsoleLink::{Attached, Detached, Suspended};
use pokebot_agent::console::ConsoleScreen::{Dark, Game, System};

#[test]
fn the_game_on_screen_is_ready_after_three_seconds() {
    let mut g = ConsoleGuard::new();
    let (acts, _, ready) = run(&mut g, 0, 10, Game, Attached);
    assert!(acts.is_empty());
    assert!(ready.is_some());
}

#[test]
fn short_fades_are_not_the_console_turning_off() {
    let mut g = ConsoleGuard::new();
    let (acts, notes, _) = run(&mut g, 0, 5, Dark, Attached);
    assert!(acts.is_empty() && notes.is_empty());
    let (_, _, ready) = run(&mut g, 5, 9, Game, Attached);
    assert!(ready.is_some());
}

#[test]
fn off_waits_without_pressing_until_the_picture_returns() {
    let mut g = ConsoleGuard::new();
    let (acts, notes, _) = run(&mut g, 0, 600, Dark, Detached);
    assert!(acts.is_empty(), "{acts:?}");
    assert_eq!(notes.len(), 1);
    assert!(notes[0].contains("off or asleep"), "{notes:?}");
}

#[test]
fn a_suspended_console_gets_home_presses_to_wake_it() {
    let mut g = ConsoleGuard::new();
    let (acts, _, _) = run(&mut g, 0, 95, Dark, Suspended);
    // At once, then every 30 s.
    assert_eq!(acts.len(), 4, "{acts:?}");
    assert!(acts.iter().all(|a| a.contains("press HOME")));
}

#[test]
fn waking_up_unlocks_then_starts_the_first_software() {
    let mut g = ConsoleGuard::new();
    run(&mut g, 0, 20, Dark, Detached);
    // Turned on: the lock screen (a console screen) comes up.
    let (acts, notes, ready) = run(&mut g, 20, 40, System, Attached);
    assert!(notes[0].contains("is on"), "{notes:?}");
    assert!(notes[1].contains("attempt 1 (slot 1, unlock first)"), "{notes:?}");
    assert_eq!(
        acts,
        vec![
            "unlock: press A three times",
            "press HOME: resumes a suspended game, else the cursor goes to the first software",
            "start the software in slot 1: press A",
            "confirm (user picker, closing other software): press A",
        ]
    );
    assert!(ready.is_none());
    // The game boots (black), then shows.
    run(&mut g, 40, 50, Dark, Attached);
    let (acts, _, ready) = run(&mut g, 50, 55, Game, Attached);
    assert!(acts.is_empty());
    assert_eq!(ready.as_deref(), Some("the game is on screen after 1 launch attempt(s)"));
}

#[test]
fn no_input_while_the_game_shows_mid_launch() {
    let mut g = ConsoleGuard::new();
    g.woke = true;
    let (acts, _, _) = run(&mut g, 0, 3, System, Attached);
    assert_eq!(acts, vec!["unlock: press A three times"]);
    // Unlocking went straight back into the suspended game: no HOME.
    let (acts, _, ready) = run(&mut g, 3, 7, Game, Attached);
    assert!(acts.is_empty(), "{acts:?}");
    assert!(ready.is_some());
}

#[test]
fn failed_launches_retry_with_unlock_and_later_slots() {
    let mut g = ConsoleGuard::new();
    let (_, notes, _) = run(&mut g, 0, 400, System, Attached);
    let attempts: Vec<&String> = notes.iter().filter(|n| n.contains("attempt")).collect();
    assert!(attempts.len() >= 4, "{notes:?}");
    assert!(attempts[0].ends_with("attempt 1 (slot 1)"), "{attempts:?}");
    assert!(attempts[1].ends_with("attempt 2 (slot 1, unlock first)"));
    assert!(attempts[2].ends_with("attempt 3 (slot 2)"));
    assert!(attempts[3].ends_with("attempt 4 (slot 3, unlock first)"));
}

#[test]
fn slot_two_is_reached_with_right() {
    let mut g = ConsoleGuard::new();
    g.attempt = 2;
    let (acts, _, _) = run(&mut g, 0, 20, System, Attached);
    assert_eq!(
        acts,
        vec![
            "press HOME: resumes a suspended game, else the cursor goes to the first software",
            "move right to slot 2",
            "start the software in slot 2: press A",
            "confirm (user picker, closing other software): press A",
        ]
    );
}

#[test]
fn classify_puts_a_lit_letterbox_first() {
    assert_eq!(ConsoleScreen::classify(true, true), System);
    assert_eq!(ConsoleScreen::classify(true, false), Dark);
    assert_eq!(ConsoleScreen::classify(false, false), Game);
}

#[test]
fn three_taps_press_the_same_button_three_times() {
    let ControllerCommand::Sequence(inputs) = three_taps(Button::A) else {
        panic!("not a sequence")
    };
    let presses = inputs.iter().filter(|t| !t.buttons.is_empty()).count();
    assert_eq!(presses, 3);
}

#[test]
fn the_game_must_show_without_a_break() {
    let mut g = ConsoleGuard::new();
    let mut ready = |t: u64, screen| g.step(t * SECOND, screen, Attached).ready.is_some();
    assert!(!ready(0, Game));
    assert!(!ready(2, Game));
    // A black frame: counted afresh.
    assert!(!ready(3, Dark));
    assert!(!ready(4, Game));
    assert!(!ready(6, Game));
    assert!(ready(7, Game));
    assert!(ready(8, Game));
}
