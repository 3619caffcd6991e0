use pokebot_agent::gamedata::{GameData, MoveData, SpeciesData};
use pokebot_agent::moves::{choose_slot, LearnChoice};
use pokebot_agent::party::Member;

fn mv(key: &str, power: u8, accuracy: u8, kind: &str, effect: &str) -> MoveData {
    MoveData {
        key: key.into(),
        name: key.trim_start_matches("MOVE_").replace('_', " "),
        power,
        accuracy,
        pp: 10,
        kind: Some(kind.into()),
        effect: Some(effect.into()),
    }
}

fn data() -> GameData {
    GameData {
        items: vec![],
        moves: vec![
            mv("MOVE_TACKLE", 35, 95, "TYPE_NORMAL", "EFFECT_HIT"),
            mv("MOVE_GROWL", 0, 100, "TYPE_NORMAL", "EFFECT_ATTACK_DOWN"),
            mv("MOVE_LEECH_SEED", 0, 90, "TYPE_GRASS", "EFFECT_LEECH_SEED"),
            mv("MOVE_VINE_WHIP", 35, 100, "TYPE_GRASS", "EFFECT_HIT"),
            mv("MOVE_POISON_POWDER", 0, 75, "TYPE_POISON", "EFFECT_POISON"),
            mv("MOVE_SLEEP_POWDER", 0, 75, "TYPE_GRASS", "EFFECT_SLEEP"),
        ],
        species: vec![SpeciesData {
            key: "SPECIES_BULBASAUR".into(),
            name: "BULBASAUR".into(),
            base: [45, 49, 49, 45, 65, 65],
            types: vec!["TYPE_GRASS".into(), "TYPE_POISON".into()],
            evolutions: vec![],
        }],
        marts: vec![],
        balls: vec![],
    }
}

fn bulbasaur(moves: &[&str]) -> Member {
    Member::new("SPECIES_BULBASAUR", 15, moves.iter().map(|m| (*m).to_owned()).collect())
}

/// The same chance to win the battles ahead whatever is learned.
fn even() -> Vec<i64> {
    vec![2_000_000; 5]
}

#[test]
fn status_moves_replace_stat_drops_and_damage_is_kept() {
    let data = data();
    let member =
        bulbasaur(&["MOVE_TACKLE", "MOVE_GROWL", "MOVE_LEECH_SEED", "MOVE_VINE_WHIP"]);
    assert_eq!(
        choose_slot(&data, &member, "MOVE_POISON_POWDER", &even()),
        LearnChoice::Forget(1)
    );
    let member =
        bulbasaur(&["MOVE_TACKLE", "MOVE_POISON_POWDER", "MOVE_LEECH_SEED", "MOVE_VINE_WHIP"]);
    assert_eq!(
        choose_slot(&data, &member, "MOVE_SLEEP_POWDER", &even()),
        LearnChoice::Forget(1)
    );
}

#[test]
fn a_worse_move_is_not_learned() {
    let data = data();
    let member =
        bulbasaur(&["MOVE_TACKLE", "MOVE_SLEEP_POWDER", "MOVE_LEECH_SEED", "MOVE_VINE_WHIP"]);
    assert_eq!(choose_slot(&data, &member, "MOVE_GROWL", &vec![]), LearnChoice::Skip);
}

#[test]
fn battles_won_come_first() {
    let data = data();
    let member =
        bulbasaur(&["MOVE_TACKLE", "MOVE_SLEEP_POWDER", "MOVE_LEECH_SEED", "MOVE_VINE_WHIP"]);
    // Forgetting the third move for GROWL would win more battles.
    let wins = vec![1_000_000, 1_000_000, 1_000_000, 1_500_000, 1_000_000];
    assert_eq!(choose_slot(&data, &member, "MOVE_GROWL", &wins), LearnChoice::Forget(2));
}
