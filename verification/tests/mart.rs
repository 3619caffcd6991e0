use pokebot_agent::gamedata::{GameData, Mart};
use pokebot_agent::input::Direction;
use pokebot_agent::mart::nearest_mart;
use pokebot_agent::observe::PlayerPose;
use pokebot_agent::world::{
    Behavior, Connection, Crossing, MapData, MapObject, Passage, Place, Tile, Warp, World,
};

const PLAIN: Tile = Tile { behavior: Behavior::Plain, collision: 0, encounters: false };

fn open_map(name: &str, width: i32, height: i32) -> MapData {
    let mut passages = Vec::new();
    for y in 0..height {
        for x in 0..width {
            for dir in [Direction::Up, Direction::Down, Direction::Left, Direction::Right] {
                let (dx, dy) = dir.delta();
                let to = (x + dx, y + dy);
                if (0..width).contains(&to.0) && (0..height).contains(&to.1) {
                    passages.push(Passage { from: (x, y), dir, to });
                }
            }
        }
    }
    MapData {
        id: format!("MAP_{}", name.to_uppercase()),
        name: name.into(),
        width,
        height,
        rows: vec![vec![PLAIN; width as usize]; height as usize],
        warps: vec![],
        objects: vec![],
        connections: vec![],
        crossings: vec![],
        passages,
        healer: None,
    }
}

fn warp(x: i32, y: i32, to: &str, lands: (i32, i32)) -> Warp {
    Warp {
        x,
        y,
        dest_map: format!("MAP_{}", to.to_uppercase()),
        dest_warp: 0,
        lands: Some(Place { map: to.into(), x: lands.0, y: lands.1 }),
    }
}

/// A mart with a clerk behind a counter (and people with other numbers).
fn mart_map(name: &str, city: &str, clerk: u32, door: (i32, i32)) -> MapData {
    let mut m = open_map(name, 6, 6);
    m.rows[2][1].behavior = Behavior::Counter;
    m.rows[5][3].behavior = Behavior::Arrow(Direction::Down);
    m.warps.push(warp(3, 5, city, (door.0, door.1 + 1)));
    let someone = |id: u32, graphics: &str, x: Option<i32>| MapObject {
        local_id: id,
        x,
        y: Some(1),
        movement: None,
        graphics: Some(graphics.into()),
    };
    m.objects.push(someone(9, "OBJ_EVENT_GFX_CLERK", Some(4)));
    m.objects.push(someone(clerk, "OBJ_EVENT_GFX_CLERK", Some(1)));
    m.objects.push(someone(0, "OBJ_EVENT_GFX_CLERK", None));
    m.objects.push(someone(0, "OBJ_EVENT_GFX_YOUNGSTER", Some(3)));
    m
}

fn city(name: &str, mart: &str, door: (i32, i32)) -> MapData {
    let mut c = open_map(name, 10, 10);
    c.rows[door.1 as usize][door.0 as usize] =
        Tile { behavior: Behavior::Door, collision: 1, encounters: false };
    c.warps.push(warp(door.0, door.1, mart, (3, 5)));
    c
}

fn join(a: &mut MapData, b: &mut MapData) {
    a.connections.push(Connection { direction: Some(Direction::Right), map: b.id.clone() });
    a.crossings.push(Crossing { direction: Direction::Right, from: (9, 5), to: (0, 5) });
    b.connections.push(Connection { direction: Some(Direction::Left), map: a.id.clone() });
    b.crossings.push(Crossing { direction: Direction::Left, from: (0, 5), to: (9, 5) });
}

fn world() -> World {
    let mut pewter = city("PewterCity", "PewterCity_Mart", (5, 3));
    let mut viridian = city("ViridianCity", "ViridianCity_Mart", (2, 3));
    join(&mut pewter, &mut viridian);
    World {
        maps: vec![
            pewter,
            viridian,
            mart_map("PewterCity_Mart", "PewterCity", 3, (5, 3)),
            mart_map("ViridianCity_Mart", "ViridianCity", 1, (2, 3)),
            mart_map("CeruleanCity_Mart", "CeruleanCity", 1, (2, 3)),
        ],
    }
}

fn data() -> GameData {
    let sells = |map: &str, items: &[&str]| Mart {
        map: map.into(),
        items: items.iter().map(|i| i.to_string()).collect(),
    };
    GameData {
        items: vec![],
        moves: vec![],
        species: vec![],
        balls: vec![],
        marts: vec![
            // Nothing known of its map, or no way there.
            sells("CeladonCity_Mart", &["ITEM_POKE_BALL"]),
            sells("CeruleanCity_Mart", &["ITEM_POKE_BALL"]),
            sells("PewterCity_Mart", &["ITEM_POKE_BALL", "ITEM_POTION"]),
            sells("ViridianCity_Mart", &["ITEM_POKE_BALL", "ITEM_ANTIDOTE"]),
        ],
    }
}

fn at(map: &str, x: i32, y: i32) -> PlayerPose {
    PlayerPose { map: map.into(), x, y }
}

#[test]
fn nearest_mart_selling_balls() {
    let (world, data) = (world(), data());
    let gone = vec![];
    let nearest = |pose: PlayerPose, item: &str| nearest_mart(&world, &data, &pose, item, &gone);
    assert_eq!(
        nearest(at("PewterCity", 5, 6), "ITEM_POKE_BALL"),
        Some(("PewterCity_Mart".into(), 3))
    );
    assert_eq!(
        nearest(at("ViridianCity", 6, 7), "ITEM_POKE_BALL"),
        Some(("ViridianCity_Mart".into(), 1))
    );
    assert_eq!(
        nearest(at("PewterCity", 5, 6), "ITEM_ANTIDOTE"),
        Some(("ViridianCity_Mart".into(), 1))
    );
    assert_eq!(nearest(at("PewterCity", 5, 6), "ITEM_NOT_SOLD"), None);
}

/// From the edge of one city the other's mart may be nearer: moves count, not
/// maps.
#[test]
fn nearest_mart_is_the_nearest_walk_not_the_fewest_maps() {
    let (world, data) = (world(), data());
    // Pewter's mart: 4 tiles left, 2 up and in; Viridian's: over the edge, 2
    // right, 1 up and in.
    assert_eq!(
        nearest_mart(&world, &data, &at("PewterCity", 9, 5), "ITEM_POKE_BALL", &vec![])
            .map(|(map, _)| map),
        Some("ViridianCity_Mart".into())
    );
}
