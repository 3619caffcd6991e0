use pokebot_agent::catch::{foe_status_text, is_nickname_question, throw_text, ThrowOutcome};
use pokebot_agent::catch_odds::FoeStatus;

#[test]
fn every_broke_free_variant_means_throw_again() {
    for page in [
        "Oh, no! The POKéMON broke free!",
        "Aww! It appeared to be caught!",
        "Aargh! Almost had it!",
        "Shoot! It was so close, too!",
    ] {
        assert_eq!(throw_text(page), Some(ThrowOutcome::BrokeFree), "{page}");
    }
    assert_eq!(throw_text("Gotcha! PIDGEY was caught!"), Some(ThrowOutcome::Caught));
    assert_eq!(throw_text("Gotcha! PID?EY was caught!"), Some(ThrowOutcome::Caught));
    // Unmatched text (and half a page) never reads as caught.
    for page in [
        "PIDGEY used TACKLE!",
        "RED used POKé BALL!",
        "Gotcha!",
        "PIDGEY was caught!",
        "Aww!",
        "",
    ] {
        assert_eq!(throw_text(page), None, "{page}");
    }
}

#[test]
fn foe_status_from_text() {
    assert_eq!(
        foe_status_text("Wild PIDGEY fell asleep!", "PIDGEY"),
        Some(FoeStatus::Asleep)
    );
    assert_eq!(
        foe_status_text("Wild PIDGEY is paralyzed! It may be unable to move!", "PIDGEY"),
        Some(FoeStatus::Paralyzed)
    );
    assert_eq!(foe_status_text("Wild PIDGEY woke up!", "PIDGEY"), Some(FoeStatus::Healthy));
    assert_eq!(
        foe_status_text("Wild PID?EY is fast asleep.", "PIDGEY"),
        Some(FoeStatus::Asleep)
    );
    // Our own lead, another species, or no status: nothing.
    for page in ["IVYSAUR fell asleep!", "Wild RATTATA fell asleep!", "Wild PIDGEY used TACKLE!"] {
        assert_eq!(foe_status_text(page, "PIDGEY"), None, "{page}");
    }
}

#[test]
fn the_nickname_question_is_told() {
    assert!(is_nickname_question("Give a nickname to the captured PIDGEY?"));
    assert!(!is_nickname_question("Gotcha! PIDGEY was caught!"));
}
