use pokebot_agent::catch_odds::{
    bar_hps, choices, damage_units, hp_in, hp_unit, in_units, key, pinch_type, pinched, scenario,
    states, status_effect, Choice, FoeStatus, FoeView, Lead, Means, State,
};
use pokebot_agent::gamedata::{GameData, MoveData, SpeciesData};
use pokebot_agent::party::Member;

fn view(species: &str, level: u8, hp: u16) -> FoeView<'_> {
    FoeView { species, level, hp_per_mille: hp, status: FoeStatus::Healthy, asleep_for: 0 }
}

#[test]
fn the_bar_allows_a_range_of_hp() {
    assert_eq!(bar_hps(20, 1000), vec![20]);
    let half = bar_hps(40, 500);
    assert!(half.contains(&20), "{half:?}");
    assert!(half.iter().all(|hp| (hp * 48 / 40) == 24), "{half:?}");
    // The last pixel: any HP down to 1.
    assert!(bar_hps(100, 10).contains(&1));
}

#[test]
fn sleep_left_narrows_with_time() {
    let mut foe = view("SPECIES_PIDGEY", 6, 1000);
    foe.status = FoeStatus::Asleep;
    assert_eq!(states(&foe).len(), 4);
    foe.asleep_for = 2;
    assert_eq!(states(&foe), vec![State::Asleep(1), State::Asleep(2)]);
    foe.asleep_for = 9;
    assert_eq!(states(&foe), vec![State::Asleep(1)]);
}

#[test]
fn sleep_wears_off_and_paralysis_stays() {
    assert_eq!(State::Asleep(3).after_turn(), State::Asleep(2));
    assert_eq!(State::Asleep(1).after_turn(), State::Healthy);
    assert_eq!(State::Paralyzed.after_turn(), State::Paralyzed);
    assert_eq!(State::Healthy.catch_x10(), 10);
    assert_eq!(State::Paralyzed.catch_x10(), 15);
    assert_eq!(State::Asleep(2).catch_x10(), 20);
}

#[test]
fn states_have_keys_of_their_own() {
    let a = key(3, 5, 20, State::Asleep(2));
    assert_eq!(a, 3 | 5 << 8 | 3 << 24 | 20 << 32);
    assert_ne!(a, key(3, 5, 20, State::Asleep(3)));
    assert_ne!(key(0, 1, 2, State::Healthy), key(0, 1, 2, State::Paralyzed));
}

#[test]
fn hp_is_solved_in_units() {
    assert_eq!(hp_unit(96), 1);
    assert_eq!(hp_unit(97), 2);
    assert_eq!(hp_unit(0), 1);
    assert_eq!(in_units(7, 2), 4);
    assert_eq!(hp_in(4, 2, 7), 7);
    assert_eq!(hp_in(3, 2, 7), 6);
    assert_eq!(damage_units(5, 2), 3);
    assert_eq!(damage_units(4, 3), 1);
    assert_eq!(pinched(15), 22);
}

#[test]
fn scenarios_run_from_the_weakest_hits_to_the_strongest() {
    assert_eq!([scenario(0, false), scenario(1, false), scenario(2, false)], [
        (0, 31),
        (15, 15),
        (31, 0)
    ]);
    assert_eq!(scenario(2, true), (31, 31));
}

fn mv(key: &str, power: u8, accuracy: u8, effect: &str) -> MoveData {
    MoveData {
        key: key.into(),
        name: key.trim_start_matches("MOVE_").replace('_', " "),
        power,
        accuracy,
        pp: 10,
        kind: None,
        effect: Some(effect.into()),
    }
}

fn data() -> GameData {
    GameData {
        items: vec![],
        moves: vec![
            mv("MOVE_TACKLE", 35, 95, "EFFECT_HIT"),
            mv("MOVE_SLEEP_POWDER", 0, 75, "EFFECT_SLEEP"),
            mv("MOVE_STUN_SPORE", 0, 0, "EFFECT_PARALYZE"),
            mv("MOVE_GROWL", 0, 100, "EFFECT_ATTACK_DOWN"),
            mv("MOVE_RAZOR_LEAF", 55, 95, "EFFECT_HIGH_CRITICAL"),
        ],
        species: vec![SpeciesData {
            key: "SPECIES_IVYSAUR".into(),
            name: "IVYSAUR".into(),
            base: [60, 62, 63, 60, 80, 80],
            types: vec![],
            evolutions: vec![],
        }],
        marts: vec![],
        balls: vec![],
    }
}

fn ivysaur(moves: &[&str]) -> Member {
    Member::new("SPECIES_IVYSAUR", 27, moves.iter().map(|m| m.to_string()).collect())
}

fn means(balls: u16) -> Means<'static> {
    Means { ball: 10, balls, status_allowed: true, disabled: None }
}

#[test]
fn choices_are_throw_status_attacks_and_run() {
    let d = data();
    let m = ivysaur(&["MOVE_TACKLE", "MOVE_SLEEP_POWDER", "MOVE_GROWL", "MOVE_RAZOR_LEAF"]);
    let lead = Lead { member: &m, hp: (71, 71) };
    let foe = view("SPECIES_ODDISH", 13, 400);
    assert_eq!(
        choices(&d, &lead, &foe, &means(1)),
        vec![
            Choice::Throw,
            Choice::Status(1, "MOVE_SLEEP_POWDER".into()),
            Choice::Attack(0, "MOVE_TACKLE".into()),
            Choice::Attack(3, "MOVE_RAZOR_LEAF".into()),
            Choice::Run,
        ]
    );
    // Without balls only moves and RUN; a disabled move is refused.
    let none = Means { disabled: Some("MOVE_TACKLE"), status_allowed: false, ..means(0) };
    assert_eq!(
        choices(&d, &lead, &foe, &none),
        vec![Choice::Attack(3, "MOVE_RAZOR_LEAF".into()), Choice::Run]
    );
}

#[test]
fn status_moves_land_with_their_accuracy() {
    let d = data();
    assert_eq!(status_effect(&d, "MOVE_SLEEP_POWDER"), (75, true));
    // Accuracy 0 never misses.
    assert_eq!(status_effect(&d, "MOVE_STUN_SPORE"), (100, false));
    assert_eq!(status_effect(&d, "MOVE_UNKNOWN"), (100, false));
}

#[test]
fn an_ability_powers_up_a_type_at_a_third_of_the_hp() {
    let mut m = ivysaur(&["MOVE_RAZOR_LEAF"]);
    m.ability = Some("OVERGROW".into());
    assert_eq!(pinch_type(&Lead { member: &m, hp: (20, 71) }).as_deref(), Some("TYPE_GRASS"));
    assert_eq!(pinch_type(&Lead { member: &m, hp: (71, 71) }), None);
    m.ability = Some("CHLOROPHYLL".into());
    assert_eq!(pinch_type(&Lead { member: &m, hp: (20, 71) }), None);
}

/// A stat reading counts where it fits the level.
#[test]
fn a_reading_from_before_a_level_up_is_ignored() {
    let d = data();
    let mut ivy = ivysaur(&["MOVE_RAZOR_LEAF"]);
    ivy.hp = Some((71, 71));
    let base = d.species[0].base;
    let low = |b: u8| ((2 * u32::from(b)) * 27 / 100 + 5) as u16;
    ivy.read_stats =
        Some([low(base[1]), low(base[2]), low(base[3]), low(base[4]), low(base[5])]);
    assert!(ivy.stats(&d).is_some());
    let mut stale = ivy.clone();
    stale.read_stats = Some([9, 9, 9, 9, 9]);
    assert_eq!(stale.stats(&d), None);
}

#[test]
fn choices_in_words() {
    assert_eq!(Choice::Throw.text(), "throw");
    assert_eq!(Choice::Run.text(), "run");
    assert_eq!(Choice::Attack(0, "MOVE_RAZOR_LEAF".into()).text(), "RAZOR_LEAF");
}
