use std::collections::VecDeque;

use pokebot_agent::goal_session::{
    bedroom, new_game_knowledge, restart_now_text, restart_text, run, Condition, CycleEnd, Effect,
    Runner, ScriptPath, Session, SessionReport, Start, StoryEvents, StoryName, NEW_GAME_MONEY,
};
use pokebot_agent::state::{fact_source, fact_value, KnowledgeSource};

/// A scripted runner: the ends of its cycles in order, whether a
/// checkpoint exists after each, and everything it was asked to do.
#[derive(Default)]
struct Fake {
    ends: VecDeque<CycleEnd>,
    checkpoint: bool,
    /// Cycles after which a checkpoint appears (a first save).
    checkpoint_after: Option<u64>,
    /// Stop during the wait after this many waits.
    stop_on_wait: Option<usize>,
    stopped: bool,
    starts: Vec<(Start, u64)>,
    waits: Vec<u64>,
    logs: Vec<String>,
}

impl Runner for Fake {
    fn cycle(&mut self, start: Start, cycle: u64) -> CycleEnd {
        self.starts.push((start, cycle));
        if self.checkpoint_after == Some(cycle) {
            self.checkpoint = true;
        }
        self.ends.pop_front().unwrap_or(CycleEnd::Stopped)
    }

    fn wait(&mut self, millis: u64) {
        self.waits.push(millis);
        if self.stop_on_wait == Some(self.waits.len()) {
            self.stopped = true;
        }
    }

    fn stopped(&self) -> bool {
        self.stopped
    }

    fn has_checkpoint(&self) -> bool {
        self.checkpoint
    }

    fn log(&mut self, message: &str) {
        self.logs.push(message.to_owned());
    }
}

/// 240 seconds.
const WAIT: u64 = 240_000;

#[test]
fn without_restart_one_cycle_is_played() {
    for end in [
        CycleEnd::Satisfied("ok".into()),
        CycleEnd::Unsatisfied("out of replans".into()),
        CycleEnd::Failed("device".into()),
    ] {
        let mut fake = Fake {
            ends: VecDeque::from([end.clone()]),
            checkpoint: true,
            ..Fake::default()
        };
        let report = run(Session { start: Start::Continue, restart: None }, &mut fake);
        assert_eq!(report, SessionReport { cycles: 1, last: end });
        assert_eq!(fake.starts, vec![(Start::Continue, 1)]);
        assert!(fake.waits.is_empty());
    }
}

#[test]
fn every_end_is_followed_by_a_wait_and_a_continue() {
    let mut fake = Fake {
        ends: VecDeque::from([
            CycleEnd::Unsatisfied("out of replans".into()),
            CycleEnd::Failed("video: no signal".into()),
            CycleEnd::Satisfied("goal satisfied".into()),
            CycleEnd::Satisfied("goal satisfied".into()),
            CycleEnd::Stopped,
        ]),
        checkpoint: true,
        ..Fake::default()
    };
    let report = run(Session { start: Start::Continue, restart: Some(WAIT) }, &mut fake);
    assert_eq!(report.cycles, 5);
    assert_eq!(report.last, CycleEnd::Stopped);
    // Satisfied goals keep cycling too: the console must stay busy.
    assert_eq!(
        fake.starts,
        vec![
            (Start::Continue, 1),
            (Start::Continue, 2),
            (Start::Continue, 3),
            (Start::Continue, 4),
            (Start::Continue, 5),
        ]
    );
    assert_eq!(fake.waits, vec![WAIT; 4]);
    let logs = fake.logs;
    assert_eq!(logs.len(), 4);
    assert!(logs[0].contains("cycle 2 in 240 s"), "{logs:?}");
    assert!(logs[0].contains("CONTINUE"), "{logs:?}");
}

/// A white-out on Route 1 was followed by the 240 s pause like any other end.
/// A faint reloads the save at once.
#[test]
fn a_faint_continues_the_last_save_without_the_pause() {
    let mut fake = Fake {
        ends: VecDeque::from([
            CycleEnd::Unsatisfied("fainted: our Pokémon fainted (BULBASAUR)".into()),
            CycleEnd::Unsatisfied("fainted: whited out".into()),
            CycleEnd::Unsatisfied("out of replans".into()),
            CycleEnd::Stopped,
        ]),
        checkpoint: true,
        ..Fake::default()
    };
    let report = run(Session { start: Start::AsIs, restart: Some(WAIT) }, &mut fake);
    assert_eq!(report.cycles, 4);
    assert_eq!(
        fake.starts,
        vec![
            (Start::AsIs, 1),
            (Start::Continue, 2),
            (Start::Continue, 3),
            (Start::Continue, 4)
        ]
    );
    // Only the third end (not a faint) waited.
    assert_eq!(fake.waits, vec![WAIT]);
    let logs = fake.logs;
    assert!(logs[0].contains("fainted") && logs[0].contains("now"), "{logs:?}");
    // Without a save to reload, a faint waits like any other end.
    let mut fake = Fake {
        ends: VecDeque::from([
            CycleEnd::Unsatisfied("fainted: whited out".into()),
            CycleEnd::Stopped,
        ]),
        checkpoint: false,
        stop_on_wait: Some(1),
        ..Fake::default()
    };
    run(Session { start: Start::AsIs, restart: Some(WAIT) }, &mut fake);
    assert_eq!(fake.waits.len(), 1);
}

#[test]
fn a_new_game_is_only_played_once_it_has_saved() {
    let mut fake = Fake {
        ends: VecDeque::from([
            CycleEnd::Failed("NewGame failed: stuck".into()),
            CycleEnd::Unsatisfied("out of replans".into()),
            CycleEnd::Stopped,
        ]),
        checkpoint_after: Some(2),
        ..Fake::default()
    };
    let report = run(Session { start: Start::NewGame, restart: Some(WAIT) }, &mut fake);
    assert_eq!(report.cycles, 3);
    // No save after the first cycle: a new game again; after the second
    // (which saved): CONTINUE, never a new game.
    assert_eq!(
        fake.starts,
        vec![(Start::NewGame, 1), (Start::NewGame, 2), (Start::Continue, 3)]
    );
    assert!(fake.logs[0].contains("new game again"));
}

#[test]
fn nothing_to_continue_from_waits_and_looks_again() {
    let mut fake = Fake {
        ends: VecDeque::from([CycleEnd::Failed("device".into())]),
        stop_on_wait: Some(3),
        ..Fake::default()
    };
    let report = run(Session { start: Start::AsIs, restart: Some(WAIT) }, &mut fake);
    assert_eq!(report.cycles, 1);
    assert_eq!(fake.starts.len(), 1);
    assert_eq!(fake.waits.len(), 3);
    assert!(fake.logs[0].contains("no progress file"));
}

#[test]
fn a_stop_during_the_wait_ends_the_session() {
    let mut fake = Fake {
        ends: VecDeque::from([CycleEnd::Satisfied("goal satisfied".into())]),
        checkpoint: true,
        stop_on_wait: Some(1),
        ..Fake::default()
    };
    let report = run(Session { start: Start::Continue, restart: Some(WAIT) }, &mut fake);
    assert_eq!(report.cycles, 1);
    assert_eq!(report.last, CycleEnd::Satisfied("goal satisfied".into()));
    assert_eq!(fake.starts.len(), 1);
}

#[test]
fn a_stopped_cycle_ends_without_waiting() {
    let mut fake = Fake {
        ends: VecDeque::from([CycleEnd::Stopped]),
        checkpoint: true,
        ..Fake::default()
    };
    let report = run(Session { start: Start::Continue, restart: Some(WAIT) }, &mut fake);
    assert_eq!(report.cycles, 1);
    assert!(fake.waits.is_empty());
}

#[test]
fn the_texts_of_a_restart() {
    assert_eq!(
        restart_now_text(2),
        "restart: cycle 2: a Pokémon fainted; soft reset and CONTINUE the last save now"
    );
    assert_eq!(
        restart_text(Some(Start::Continue), 3, 240),
        "restart: cycle 3 in 240 s: soft reset and CONTINUE the last save, then the goal again"
    );
    assert_eq!(
        restart_text(Some(Start::NewGame), 2, 10),
        "restart: cycle 2 in 10 s: no save yet, so a new game again"
    );
    assert_eq!(
        restart_text(None, 2, 10),
        "restart: no progress file to continue from; looking again in 10 s"
    );
}

#[test]
fn ends_tell_stops_and_faints_apart() {
    assert!(CycleEnd::Stopped.is_stopped());
    assert!(!CycleEnd::Failed("fainted: no".into()).is_faint());
    assert!(CycleEnd::Unsatisfied("fainted: whited out".into()).is_faint());
    assert!(!CycleEnd::Unsatisfied("out of replans".into()).is_faint());
}

fn named(text: &str, local: bool) -> StoryName {
    StoryName { text: text.into(), local }
}

fn story() -> StoryEvents {
    StoryEvents {
        initial: vec!["FLAG_HIDE_OAK_IN_HIS_LAB".into()],
        paths: vec![ScriptPath {
            asks: vec![
                Condition::Var(named("VAR_MAP_SCENE_PALLET_TOWN_OAK", false)),
                Condition::Flag(named("FLAG_BADGE01_GET", false)),
                Condition::Other,
            ],
            does: vec![
                Effect::SetFlag(named("FLAG_SYS_POKEDEX_GET", false)),
                Effect::ClearFlag(named("FLAG_TEMP_1", true)),
                Effect::SetVar(named("VAR_TEMP_1", true)),
                Effect::Other,
            ],
        }],
        triggers: vec![vec![
            Condition::Var(named("VAR_MAP_SCENE_ROUTE22", false)),
            // Only the variables of triggers count.
            Condition::Flag(named("FLAG_OF_A_TRIGGER", false)),
        ]],
        map_vars: vec![named("VAR_MAP_SCENE_MUSEUM", false), named("0x8004", false)],
        hidden_by: vec![None, Some(named("FLAG_HIDE_OAK_IN_HIS_LAB", false))],
    }
}

/// What a new game starts with, from the rules and the compiled events:
/// nothing held, ¥3000, the story at its start (the flags the new-game
/// script sets on, the rest off, every var 0).
#[test]
fn a_new_game_starts_known() {
    let k = new_game_knowledge(Some(&story()));
    assert_eq!(k.party.value.as_deref(), Some(&[][..]));
    assert_eq!(k.money.value, Some(NEW_GAME_MONEY));
    assert_eq!(NEW_GAME_MONEY, 3000);
    assert_eq!(k.pockets.len(), 5);
    assert!(k.pockets.iter().all(|p| p.1.value.as_deref() == Some(&[][..])));
    assert!(k.boxes.iter().all(|b| b.value.as_deref() == Some(&[][..])));
    assert_eq!(k.counts.value.map(|c| (c.seen, c.caught)), Some((Some(0), 0)));
    let w = &k.world;
    assert_eq!(fact_value(&w.vars, "VAR_MAP_SCENE_PALLET_TOWN_OAK"), Some(0));
    assert_eq!(fact_value(&w.vars, "VAR_MAP_SCENE_ROUTE22"), Some(0));
    assert_eq!(fact_value(&w.vars, "VAR_MAP_SCENE_MUSEUM"), Some(0));
    assert_eq!(fact_value(&w.flags, "FLAG_SYS_POKEDEX_GET"), Some(false));
    assert_eq!(fact_value(&w.flags, "FLAG_HIDE_OAK_IN_HIS_LAB"), Some(true));
    assert_eq!(fact_value(&w.flags, "FLAG_BADGE01_GET"), Some(false));
    assert_eq!(fact_source(&w.flags, "FLAG_BADGE01_GET"), KnowledgeSource::Derived);
    assert_eq!(fact_value(&w.flags, "FLAG_OF_A_TRIGGER"), None);
    // Script-local state is not the save's.
    assert!(!w.vars.iter().any(|v| v.0.starts_with("VAR_TEMP_")));
    assert!(!w.flags.iter().any(|f| f.0.starts_with("FLAG_TEMP_")));
    assert!(!w.vars.iter().any(|v| v.0 == "0x8004"));
    // Each name once.
    assert_eq!(w.flags.len(), 3);
}

#[test]
fn without_compiled_events_the_story_is_unknown() {
    let k = new_game_knowledge(None);
    assert!(k.world.flags.is_empty() && k.world.vars.is_empty());
    assert_eq!(k.money.value, Some(3000));
}

#[test]
fn a_new_game_begins_in_the_bedroom() {
    let p = bedroom();
    assert_eq!((p.map.as_str(), p.x, p.y), ("PalletTown_PlayersHouse_2F", 6, 6));
}
