use std::sync::Arc;

use pokebot_agent::action::{Action, Expectation};
use pokebot_agent::executor::Outcome;
use pokebot_agent::input::{ControllerCommand, Direction};
use pokebot_agent::motion::syncer::TILE_MS;
use pokebot_agent::nav::{
    goal_tiles, plan_hop, run_hold, straight_run, Destination, NavStatus, NavStep, Navigator,
    PathQuestion, MAX_FORGETS, MAX_RUN,
};
use pokebot_agent::observe::{Observation, PlayerPose, ScreenState};
use pokebot_agent::route::{
    nearest_reachable, object_obstacles, route_exit, route_from, route_search, static_obstacles,
    usable_warp, warp_usable,
};
use pokebot_agent::search::Hop;
use pokebot_agent::world::{
    Behavior, Connection, Crossing, MapData, MapObject, Passage, Place, Step, Tile, Warp, World,
};

fn path(dirs: &[Direction], from: (i32, i32)) -> Vec<Step> {
    let mut at = from;
    dirs.iter()
        .map(|&dir| {
            let (dx, dy) = dir.delta();
            at = (at.0 + dx, at.1 + dy);
            Step { dir, to: at }
        })
        .collect()
}

#[test]
fn straight_run_merges_same_direction_steps_but_keeps_the_last_step() {
    let right = Direction::Right;
    let up = Direction::Up;
    // Right×4 then Up: hold Right for 4 tiles.
    assert_eq!(straight_run((0, 0), &path(&[right, right, right, right, up], (0, 0))), 4);
    // The final step stays a tap (warps, doors and edges need it).
    assert_eq!(straight_run((0, 0), &path(&[right, right, right], (0, 0))), 2);
    // Too short to be worth a hold.
    assert_eq!(straight_run((0, 0), &path(&[right, up, up], (0, 0))), 1);
    assert_eq!(straight_run((0, 0), &path(&[up], (0, 0))), 1);
    // Capped, so a long hold can't overshoot far if the timing drifts.
    assert_eq!(straight_run((0, 0), &path(&[Direction::Down; 20], (0, 0))), MAX_RUN);
}

#[test]
fn a_ledge_jump_ends_the_run() {
    // A ledge moves two tiles in one step: not a plain walk.
    let mut steps = path(&[Direction::Down, Direction::Down], (0, 0));
    steps.push(Step { dir: Direction::Down, to: (0, 4) });
    steps.push(Step { dir: Direction::Down, to: (0, 5) });
    assert_eq!(straight_run((0, 0), &steps), 2);
    // Starting with the jump: no hold.
    let jump_first = vec![
        Step { dir: Direction::Down, to: (0, 2) },
        Step { dir: Direction::Down, to: (0, 3) },
        Step { dir: Direction::Down, to: (0, 4) },
    ];
    assert_eq!(straight_run((0, 0), &jump_first), 1);
}

#[test]
fn hold_ends_inside_the_last_tile() {
    // Released half a tile early: the game finishes the step it's in.
    assert_eq!(run_hold(1), TILE_MS / 2);
    assert_eq!(run_hold(4), TILE_MS * 4 - TILE_MS / 2);
}

const PLAIN: Tile = Tile { behavior: Behavior::Plain, collision: 0, encounters: false };

/// An open map of the given size.
fn open_map(name: &str, width: i32, height: i32) -> MapData {
    let mut passages = Vec::new();
    for y in 0..height {
        for x in 0..width {
            for dir in [Direction::Up, Direction::Down, Direction::Left, Direction::Right] {
                let (dx, dy) = dir.delta();
                let to = (x + dx, y + dy);
                if (0..width).contains(&to.0) && (0..height).contains(&to.1) {
                    passages.push(Passage { from: (x, y), dir, to });
                }
            }
        }
    }
    MapData {
        id: format!("MAP_{}", name.to_uppercase()),
        name: name.into(),
        width,
        height,
        rows: vec![vec![PLAIN; width as usize]; height as usize],
        warps: vec![],
        objects: vec![],
        connections: vec![],
        crossings: vec![],
        passages,
        healer: None,
    }
}

fn warp(x: i32, y: i32, to: &str, lands: (i32, i32)) -> Warp {
    Warp {
        x,
        y,
        dest_map: format!("MAP_{}", to.to_uppercase()),
        dest_warp: 0,
        lands: Some(Place { map: to.into(), x: lands.0, y: lands.1 }),
    }
}

fn at(map: &str, x: i32, y: i32) -> PlayerPose {
    PlayerPose { map: map.into(), x, y }
}

fn seen(pose: PlayerPose) -> Observation {
    let mut o = Observation::bare(1, ScreenState::Unknown);
    o.player = Some(pose);
    o
}

/// A path over the map's open tiles, as the world model would find it.
fn find_path(map: &MapData, q: &PathQuestion) -> Option<Vec<Step>> {
    let start = (q.pose.x, q.pose.y);
    let mut found: Vec<((i32, i32), Vec<Step>)> = vec![(start, vec![])];
    let mut i = 0;
    while i < found.len() {
        let (here, path) = found[i].clone();
        if q.goals.contains(&here) {
            return Some(path);
        }
        for p in map.passages.iter().filter(|p| p.from == here) {
            if !q.obstacles.contains(&p.to) && !found.iter().any(|f| f.0 == p.to) {
                let mut longer = path.clone();
                longer.push(Step { dir: p.dir, to: p.to });
                found.push((p.to, longer));
            }
        }
        i += 1;
    }
    None
}

/// The next status of the walk, its paths found on the map it is on.
fn next(nav: &mut Navigator, world: &World, o: &Observation) -> NavStatus {
    match nav.next(o) {
        NavStep::Status(s) => s,
        NavStep::Path(q) => {
            let map = world.maps.iter().find(|m| m.name == q.pose.map).unwrap();
            let path = find_path(map, &q);
            nav.follow(&q, path.as_ref())
        }
    }
}

fn act(s: NavStatus) -> Action {
    match s {
        NavStatus::Act(a) => a,
        other => panic!("{other:?}"),
    }
}

/// In a featureless corridor two Right taps that did move the player weren't
/// seen, the tile ahead was learned as blocked, and the walk to the ladder
/// failed with "no path to warp (25, 21)".
#[test]
fn a_warp_walk_forgets_learned_obstacles_before_giving_up() {
    let mut cave = open_map("MtMoon_B2F", 30, 40);
    cave.warps.push(warp(25, 21, "MtMoon_B1F", (1, 1)));
    // A dead end: the only way out of the corridor's end is through three tiles.
    cave.passages.retain(|p| {
        let end = [(27, 38)];
        let ahead = [(28, 38), (28, 37), (27, 37)];
        !end.contains(&p.from) || ahead.contains(&p.to)
    });
    let world = Arc::new(World { maps: vec![cave] });
    let o = seen(at("MtMoon_B2F", 27, 38));
    let mut nav = Navigator::new(
        Arc::clone(&world),
        Destination::Warp { map: "MtMoon_B2F".into(), warp: 0 },
    );
    // Both corridor rows ahead learned as blocked.
    let learn = |nav: &mut Navigator| {
        for tile in [(28, 38), (28, 37), (27, 37)] {
            nav.learned.push(("MtMoon_B2F".into(), tile));
        }
    };
    learn(&mut nav);
    match next(&mut nav, &world, &o) {
        NavStatus::Wait(r) => assert!(r.contains("forgetting"), "{r}"),
        _ => panic!("expected a wait"),
    }
    match next(&mut nav, &world, &o) {
        NavStatus::Act(a) => assert!(a.label.starts_with("walk to warp (25, 21)"), "{}", a.label),
        _ => panic!("expected a step"),
    }
    // A block that keeps coming back is forgotten at most MAX_FORGETS
    // times on a map; then the walk fails instead of cycling.
    for _ in 1..MAX_FORGETS {
        learn(&mut nav);
        assert!(matches!(next(&mut nav, &world, &o), NavStatus::Wait(_)));
    }
    learn(&mut nav);
    match next(&mut nav, &world, &o) {
        NavStatus::Fail(r) => assert!(r.contains("no path to warp"), "{r}"),
        _ => panic!("expected the walk to fail"),
    }
}

#[test]
fn a_walk_holds_along_runs_and_taps_the_last_tile() {
    let world = Arc::new(World { maps: vec![open_map("Field", 12, 3)] });
    let to = Destination::Tile { map: "Field".into(), x: 5, y: 1 };
    assert_eq!(to.map(), "Field");
    let mut nav = Navigator::new(Arc::clone(&world), to);
    let a = act(next(&mut nav, &world, &seen(at("Field", 0, 1))));
    assert_eq!(a.label, "walk to (5, 1): Right ×4");
    assert_eq!(a.expect, Expectation::PlayerAt(at("Field", 4, 1)));
    assert!(a.interruptible);
    assert_eq!(a.timeout_frames, 30 + 16 + 8);
    assert!(matches!(a.commands[0], ControllerCommand::Hold { millis: 938, .. }));
    // The hold fell short: taps for two moves.
    nav.on_outcome(&a, Outcome::TimedOut);
    let a = act(next(&mut nav, &world, &seen(at("Field", 1, 1))));
    assert_eq!(a.label, "walk to (5, 1): Right");
    assert_eq!(a.expect, Expectation::PlayerMovedFrom(at("Field", 1, 1)));
    assert!(matches!(next(&mut nav, &world, &seen(at("Field", 5, 1))), NavStatus::Arrived));
}

#[test]
fn two_misses_teach_the_way_round() {
    let world = Arc::new(World { maps: vec![open_map("Field", 4, 2)] });
    let mut nav = Navigator::new(
        Arc::clone(&world),
        Destination::Tile { map: "Field".into(), x: 1, y: 0 },
    );
    for misses in [1, 0] {
        let a = act(next(&mut nav, &world, &seen(at("Field", 0, 0))));
        assert_eq!(a.label, "walk to (1, 0): Right");
        nav.on_outcome(&a, Outcome::TimedOut);
        assert_eq!(nav.stalled(), misses);
    }
    // The goal itself is taken for blocked now; forgotten, then tried again.
    assert!(matches!(
        next(&mut nav, &world, &seen(at("Field", 0, 0))),
        NavStatus::Wait(_)
    ));
    assert!(matches!(next(&mut nav, &world, &seen(at("Field", 0, 0))), NavStatus::Act(_)));
}

#[test]
fn people_are_talked_to_across_a_counter() {
    let mut shop = open_map("Shop", 5, 5);
    shop.rows[2][2].behavior = Behavior::Counter;
    let world = Arc::new(World { maps: vec![shop] });
    let clerk = Destination::Facing { map: "Shop".into(), x: 2, y: 1 };
    let goals = goal_tiles(&world, &clerk);
    assert_eq!(goals, vec![(2, 2), (2, 3), (2, 0), (3, 1), (1, 1)]);
    let mut nav = Navigator::new(Arc::clone(&world), clerk);
    let a = act(next(&mut nav, &world, &seen(at("Shop", 2, 3))));
    assert_eq!((a.label.as_str(), a.timeout_frames), ("face Up", 6));
    assert_eq!(a.expect, Expectation::InputsDone);
    assert!(matches!(next(&mut nav, &world, &seen(at("Shop", 2, 3))), NavStatus::Arrived));
}

/// Two towns side by side, a house with a door in the first.
fn town() -> World {
    let mut a = open_map("A", 5, 5);
    a.rows[1][2] = Tile { behavior: Behavior::Door, collision: 1, encounters: false };
    a.warps.push(warp(2, 1, "House", (1, 2)));
    a.connections.push(Connection { direction: Some(Direction::Right), map: "MAP_B".into() });
    a.crossings.push(Crossing { direction: Direction::Right, from: (4, 2), to: (0, 2) });
    let mut b = open_map("B", 5, 5);
    b.connections.push(Connection { direction: Some(Direction::Left), map: "MAP_A".into() });
    b.crossings.push(Crossing { direction: Direction::Left, from: (0, 2), to: (4, 2) });
    let mut house = open_map("House", 3, 3);
    house.rows[2][1].behavior = Behavior::Arrow(Direction::Down);
    // A plain tile beside the mat leads to the same place and never fires.
    house.warps.push(warp(0, 2, "A", (2, 2)));
    house.warps.push(warp(1, 2, "A", (2, 2)));
    World { maps: vec![a, b, house] }
}

#[test]
fn routes_lead_through_doors_mats_and_edges() {
    let world = town();
    let gone = vec![];
    let tile = |map: &str, x, y| Destination::Tile { map: map.into(), x, y };
    assert_eq!(plan_hop(&world, &at("A", 0, 0), &tile("House", 0, 0), &gone), Some(Hop::Warp(0)));
    assert_eq!(
        plan_hop(&world, &at("House", 0, 0), &tile("B", 3, 3), &gone),
        Some(Hop::Warp(1))
    );
    assert_eq!(
        plan_hop(&world, &at("A", 0, 0), &tile("B", 3, 3), &gone),
        Some(Hop::Edge(Direction::Right))
    );
    assert_eq!(plan_hop(&world, &at("A", 0, 0), &tile("A", 3, 3), &gone), None);
    assert_eq!(route_from(&world, &at("A", 0, 0), "B"), Some(Hop::Edge(Direction::Right)));
    assert_eq!(route_exit(&world, "House", "B"), Some(Hop::Warp(1)));
    assert_eq!(route_exit(&world, "A", "A"), None);
    assert_eq!(route_exit(&world, "A", "Nowhere"), None);
    assert_eq!(
        route_search(&world, &at("A", 0, 0), "B", Some(&vec![(9, 9)]), &gone),
        None
    );
    assert_eq!(route_search(&world, &at("A", 0, 0), "A", None, &gone), Some(None));
    // The plain warp is not used; the marked one beside it is.
    assert!(!warp_usable(&world.maps[2], 0));
    assert_eq!(usable_warp(&world.maps[2], 0), 1);
    assert_eq!(usable_warp(&world.maps[2], 7), 7);
}

#[test]
fn a_walk_takes_doors_mats_and_edges() {
    let world = Arc::new(town());
    let mut nav = Navigator::new(
        Arc::clone(&world),
        Destination::Tile { map: "B".into(), x: 3, y: 3 },
    );
    // On the mat: push its arrow.
    let a = act(next(&mut nav, &world, &seen(at("House", 1, 2))));
    assert_eq!(a.label, "take warp 1 of House (Down)");
    assert_eq!(a.expect, Expectation::LeftMap("House".into()));
    assert_eq!(a.timeout_frames, 180);
    // In town: to the edge, then across.
    let a = act(next(&mut nav, &world, &seen(at("A", 2, 2))));
    assert!(a.label.starts_with("walk to the Right edge"), "{}", a.label);
    let a = act(next(&mut nav, &world, &seen(at("A", 4, 2))));
    assert_eq!(a.label, "cross into the next map (Right)");
    assert_eq!(a.timeout_frames, 60);
    // Below the door: push Up.
    let mut nav = Navigator::new(
        Arc::clone(&world),
        Destination::Warp { map: "A".into(), warp: 0 },
    );
    let a = act(next(&mut nav, &world, &seen(at("A", 2, 2))));
    assert_eq!(a.label, "take warp 0 of A (Up)");
    let a = act(next(&mut nav, &world, &seen(at("A", 2, 4))));
    assert!(a.label.starts_with("walk to door (2, 1)"), "{}", a.label);
    // Done once we stand on the map it leads to.
    assert!(matches!(next(&mut nav, &world, &seen(at("House", 1, 2))), NavStatus::Arrived));
}

#[test]
fn a_walk_says_what_it_does_not_know() {
    let world = Arc::new(town());
    let mut nav = Navigator::new(
        Arc::clone(&world),
        Destination::Warp { map: "A".into(), warp: 3 },
    );
    let told = |s: NavStep| match s {
        NavStep::Status(NavStatus::Wait(r)) | NavStep::Status(NavStatus::Fail(r)) => r,
        other => panic!("{other:?}"),
    };
    let bare = Observation::bare(1, ScreenState::Unknown);
    assert_eq!(told(nav.next(&bare)), "locating the player");
    assert_eq!(told(nav.next(&seen(at("Moon", 0, 0)))), "unknown map Moon");
    assert_eq!(told(nav.next(&seen(at("A", 0, 0)))), "A has no warp 3");
    let mut nav = Navigator::new(
        world,
        Destination::Tile { map: "Moon".into(), x: 0, y: 0 },
    );
    assert_eq!(told(nav.next(&seen(at("A", 0, 0)))), "no known route from A to Moon");
}

fn object(id: u32, x: i32, y: i32, movement: &str) -> MapObject {
    MapObject {
        local_id: id,
        x: Some(x),
        y: Some(y),
        movement: Some(movement.into()),
        graphics: None,
    }
}

#[test]
fn objects_that_stay_block_their_tiles() {
    let mut map = open_map("Field", 5, 5);
    map.objects.push(object(1, 1, 1, "MOVEMENT_TYPE_FACE_DOWN"));
    map.objects.push(object(2, 2, 2, "MOVEMENT_TYPE_WANDER_AROUND"));
    map.objects.push(object(3, 3, 3, "MOVEMENT_TYPE_LOOK_AROUND"));
    assert_eq!(static_obstacles(&map), vec![(1, 1), (3, 3)]);
    let taken = vec![("Field".to_owned(), 3), ("Elsewhere".to_owned(), 1)];
    assert_eq!(object_obstacles(&map, &taken), vec![(1, 1)]);
}

#[test]
fn the_nearest_goals_are_told_in_name_order() {
    let world = town();
    let goals = vec![
        ("House".to_owned(), vec![(1, 2)]),
        ("B".to_owned(), vec![(0, 2)]),
        ("A".to_owned(), vec![(0, 0)]),
    ];
    // From below the door the house is one move away.
    assert_eq!(nearest_reachable(&world, &at("A", 2, 2), &goals, &vec![]), vec!["House"]);
    // Three moves each to the house (Left, Left, in) and to B (Right twice, over).
    let two = vec![goals[0].clone(), goals[1].clone()];
    assert_eq!(nearest_reachable(&world, &at("A", 3, 2), &two, &vec![]), vec!["B", "House"]);
    let none = vec![("B".to_owned(), vec![(9, 9)])];
    assert!(nearest_reachable(&world, &at("A", 2, 2), &none, &vec![]).is_empty());
}

#[test]
fn what_is_gone_does_not_block_the_walk() {
    let mut hall = open_map("Hall", 5, 1);
    hall.objects.push(MapObject {
        local_id: 7,
        x: Some(2),
        y: Some(0),
        movement: Some("MOVEMENT_TYPE_FACE_DOWN".into()),
        graphics: None,
    });
    let world = Arc::new(World { maps: vec![hall] });
    let to = || Destination::Tile { map: "Hall".into(), x: 4, y: 0 };
    let asked = |nav: &mut Navigator| match nav.next(&seen(at("Hall", 0, 0))) {
        NavStep::Path(q) => q.obstacles,
        _ => panic!("expected a question"),
    };
    let mut nav = Navigator::new(Arc::clone(&world), to());
    assert_eq!(asked(&mut nav), vec![(2, 0)]);
    let mut nav =
        Navigator::new(Arc::clone(&world), to()).with_gone(vec![("Hall".into(), 7)]);
    assert!(asked(&mut nav).is_empty());
}
