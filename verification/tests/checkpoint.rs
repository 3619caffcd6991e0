use pokebot_agent::checkpoint::{
    legacy_knowledge, load, path_for, repair, restore, store, Checkpoint, Identity,
};
use pokebot_agent::gamedata::{GameData, MoveData};
use pokebot_agent::new_game::NewGameConfig;
use pokebot_agent::observe::{Gender, PlayerPose};
use pokebot_agent::party::{Member, Party};
use pokebot_agent::paths::{with_extension, with_file_name};
use pokebot_agent::progress::{Progress, Starter};
use pokebot_agent::state::{GameState, Knowledge, PartyMon, SavedKnowledge, PC_BOXES};

fn mv(key: &str, pp: u8) -> MoveData {
    MoveData {
        key: key.into(),
        name: key.trim_start_matches("MOVE_").replace('_', " "),
        power: 35,
        accuracy: 100,
        pp,
        kind: None,
        effect: None,
    }
}

fn data() -> GameData {
    GameData {
        items: vec![],
        moves: vec![
            mv("MOVE_TACKLE", 35),
            mv("MOVE_SLEEP_POWDER", 15),
            mv("MOVE_LEECH_SEED", 10),
            mv("MOVE_VINE_WHIP", 10),
        ],
        species: vec![],
        marts: vec![],
        balls: vec![],
    }
}

fn ivysaur() -> Party {
    let mut m = Member::new(
        "SPECIES_IVYSAUR",
        18,
        ["MOVE_TACKLE", "MOVE_SLEEP_POWDER", "MOVE_LEECH_SEED", "MOVE_VINE_WHIP"]
            .map(String::from)
            .to_vec(),
    );
    m.hp = Some((54, 54));
    m.pp_used = vec![("MOVE_VINE_WHIP".to_owned(), 5)];
    Party { members: vec![m] }
}

#[test]
fn legacy_party_migrates() {
    let d = data();
    let party = ivysaur();
    let k = legacy_knowledge(&d, &party);
    let mon = &k.party.value.as_ref().unwrap()[0];
    assert_eq!(mon.species.value.as_deref(), Some("SPECIES_IVYSAUR"));
    assert!(mon.species.is_stale(), "older knowledge is followed, not observed");
    assert_eq!(mon.moves[3].as_ref().unwrap().pp.value, Some((5, 10)));
    let mut s = GameState::default();
    s.saved.party = k.party.clone();
    assert_eq!(Party::from_state(&s).lead().unwrap().moves, party.members[0].moves);
    // HP that cannot be is not taken over.
    let mut bad = party.clone();
    bad.members[0].hp = Some((5, 4));
    let k = legacy_knowledge(&d, &bad);
    assert_eq!(k.party.value.as_ref().unwrap()[0].hp, Knowledge::unknown());
}

#[test]
fn empty_legacy_party_is_unknown() {
    let k = legacy_knowledge(&data(), &Party::default());
    assert_eq!(k, SavedKnowledge::default());
    assert_eq!(k.boxes.len(), PC_BOXES);
    assert_eq!(k.party, Knowledge::unknown());
}

#[test]
fn impossible_switch_hp_is_unknown_after_checkpoint_load() {
    let mut knowledge = SavedKnowledge::default();
    knowledge.party = Knowledge::observed(
        vec![
            PartyMon {
                level: Knowledge::observed(6, 10),
                hp: Knowledge::observed((3, 2), 10),
                ..PartyMon::default()
            },
            PartyMon {
                level: Knowledge::observed(6, 10),
                hp: Knowledge::observed((3, 22), 10),
                ..PartyMon::default()
            },
        ],
        10,
    );
    let mut loaded = Checkpoint { identity: None, knowledge };
    repair(&mut loaded);
    let party = loaded.knowledge.party.value.unwrap();
    assert_eq!(party[0].hp, Knowledge::unknown());
    assert_eq!(party[1].hp.value, Some((3, 22)));
}

fn progress(milestones: &[&str], x: i32) -> Progress {
    Progress {
        player_name: "RED".into(),
        rival_name: "GREEN".into(),
        gender: Gender::Boy,
        starter: Starter::Bulbasaur,
        milestones: milestones.iter().map(|m| m.to_string()).collect(),
        saved_at: Some(PlayerPose { map: "PewterCity_PokemonCenter_1F".into(), x, y: 4 }),
        party: Party::default(),
    }
}

fn stored(identity: Option<Identity>) -> Checkpoint {
    let mut knowledge = SavedKnowledge::default();
    knowledge.money = Knowledge::observed(42, 7);
    Checkpoint { identity, knowledge }
}

#[test]
fn checkpoint_for_another_save_falls_back_to_legacy() {
    let d = data();
    let state = stored(Some(Identity::of(&progress(&["A", "B"], 7))));
    // Same save: restored as stored.
    let same = restore("state.json", Ok(Some(state.clone())), &progress(&["A", "B"], 7), &d);
    assert_eq!(same.knowledge, state.knowledge);
    assert!(same.warning.is_none());
    assert_eq!(same.source, "state.json");
    // Another save (fewer milestones): the older party is taken over.
    let other = restore("state.json", Ok(Some(state.clone())), &progress(&["A"], 7), &d);
    assert_eq!(other.knowledge.money, Knowledge::unknown());
    assert!(other.warning.is_some());
    // Same milestones, saved elsewhere.
    let moved = restore("state.json", Ok(Some(state)), &progress(&["A", "B"], 8), &d);
    assert!(moved.warning.unwrap().contains("written for another save"));
}

#[test]
fn checkpoint_without_identity_is_not_trusted() {
    let d = data();
    // The format before identities: the knowledge alone.
    let r = restore("state.json", Ok(Some(stored(None))), &progress(&["A"], 7), &d);
    assert_eq!(r.knowledge.money, Knowledge::unknown());
    assert!(r.warning.unwrap().contains("has no identity"));
}

#[test]
fn a_missing_or_broken_checkpoint_falls_back() {
    let d = data();
    let none = restore("state.json", Ok(None), &progress(&["A"], 7), &d);
    assert!(none.warning.is_none());
    assert!(none.source.starts_with("nothing"), "{}", none.source);
    let broken = restore("state.json", Err("bad json".into()), &progress(&["A"], 7), &d);
    assert_eq!(broken.warning.as_deref(), Some("bad json: ignored"));
    let mut with_party = progress(&["A"], 7);
    with_party.party = ivysaur();
    let kept = restore("state.json", Ok(None), &with_party, &d);
    assert!(kept.source.contains("legacy party"), "{}", kept.source);
    assert!(kept.knowledge.party.value.is_some());
}

#[test]
fn files_lie_beside_each_other() {
    assert_eq!(path_for("/tmp/x/progress.json"), "/tmp/x/state.json");
    assert_eq!(path_for("progress.json"), "state.json");
    assert_eq!(Progress::path_for("roms/Game.sav"), "roms/Game.pokebot.json");
}

/// The same as paths of the system give.
#[test]
fn paths_go_by_their_last_part() {
    for path in [
        "a/b.c", "b.c", "a//b", "/b", "/", "", "a/..", "..", ".", "./b", "a/./b", "a/b/", "a/.", "/.",
        "a/b/.", ".sav", "a.b.c", "a/b.", "...", "a/../", "//x//y//",
    ] {
        let p = std::path::Path::new(path);
        assert_eq!(
            with_file_name(path, "state.json"),
            p.with_file_name("state.json").to_str().unwrap(),
            "{path}"
        );
        assert_eq!(
            with_extension(path, "pokebot.json"),
            p.with_extension("pokebot.json").to_str().unwrap(),
            "{path}"
        );
    }
}

#[test]
fn a_game_just_begun_has_no_progress() {
    let p = Progress::fresh(&NewGameConfig::default(), Starter::Squirtle);
    assert!(p.milestones.is_empty() && p.saved_at.is_none() && p.party.members.is_empty());
    assert_eq!(p.starter, Starter::Squirtle);
}

#[test]
fn what_was_stored_is_loaded() {
    assert_eq!(load(None), None);
    let mut k = SavedKnowledge::default();
    k.money = Knowledge::observed(42, 7);
    let id = Identity::of(&progress(&["A"], 7));
    let written = store(id.clone(), k.clone());
    assert_eq!(
        load(Some(written)),
        Some(Checkpoint { identity: Some(id.clone()), knowledge: k.clone() })
    );
    // An HP that cannot be is forgotten, and nothing else.
    let mon = |hp: Knowledge<(u16, u16)>| PartyMon {
        level: Knowledge::observed(6, 10),
        hp,
        ..PartyMon::default()
    };
    k.party = Knowledge::observed(vec![mon(Knowledge::observed((3, 2), 10))], 10);
    let read = load(Some(store(id, k.clone()))).unwrap();
    k.party = Knowledge::observed(vec![mon(Knowledge::unknown())], 10);
    assert_eq!(read.knowledge, k);
}

#[test]
fn a_file_that_cannot_be_read_leaves_the_party_alone() {
    let r = restore("state.json", Err("state.json: broken".into()), &progress(&["A"], 7), &data());
    assert_eq!(r.knowledge, SavedKnowledge::default());
    assert_eq!(r.warning.as_deref(), Some("state.json: broken: ignored"));
    let r = restore("state.json", Ok(None), &progress(&["A"], 7), &data());
    assert_eq!((r.knowledge, r.warning), (SavedKnowledge::default(), None));
}
