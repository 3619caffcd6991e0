//! What one video frame shows, as read from the screen.

use vstd::prelude::*;

verus! {

#[derive(Debug, Clone, Copy, PartialEq, Eq, Structural)]
pub enum ScreenState {
    Unknown,
    Overworld,
    Transition,
    TitleScreen,
    MainMenu,
    InfoPage,
    Dialogue,
    Menu,
    Naming,
    BattleCommand,
    BattleMoveSelection,
    BattleText,
    BattleBag,
    Bag,
    Shop,
}

#[derive(Debug, Clone, Copy, PartialEq, Eq, Structural)]
pub enum Gender {
    Boy,
    Girl,
}

impl Gender {
    pub open spec fn called(self) -> Seq<char> {
        match self {
            Gender::Boy => "Boy"@,
            Gender::Girl => "Girl"@,
        }
    }

    pub fn name(self) -> (s: &'static str)
        ensures
            s@ == self.called(),
    {
        match self {
            Gender::Boy => "Boy",
            Gender::Girl => "Girl",
        }
    }
}

/// A rectangle of the screen, in pixels.
#[derive(Debug, Clone, Copy, PartialEq, Eq, Structural)]
pub struct Region {
    pub x: u32,
    pub y: u32,
    pub width: u32,
    pub height: u32,
}

#[derive(Debug, Clone, Copy, PartialEq, Eq, Structural)]
pub enum DialogueKind {
    MessageBox,
    BattleText,
    InfoPage,
}

#[derive(Debug, Clone, PartialEq, Eq)]
pub struct DialogueObservation {
    pub kind: DialogueKind,
    /// The ▼ arrow shows: the game waits for A.
    pub waiting_for_input: bool,
    /// The page has printed in full and takes A (with or without an arrow).
    pub ready_for_a: bool,
    /// One number per cell of the text window, by which pages are told apart.
    pub text_cells: Vec<u8>,
    pub lines: Vec<String>,
}

#[derive(Debug, Clone, Copy, PartialEq, Eq, Structural)]
pub struct MenuObservation {
    pub window: Region,
    pub rows: u8,
    pub cursor_row: u8,
    pub cursor_y: u32,
}

#[derive(Debug, Clone, Copy, PartialEq, Eq, Structural)]
pub enum KeyboardFocus {
    Key { column: u8, row: u8 },
    Buttons,
}

#[derive(Debug, Clone, Copy, PartialEq, Eq, Structural)]
pub struct NamingObservation {
    pub focus: KeyboardFocus,
    /// Characters typed so far.
    pub typed: u8,
}

#[derive(Debug, Clone, PartialEq, Eq)]
pub struct PlayerPose {
    pub map: String,
    pub x: i32,
    pub y: i32,
}

#[verifier::ext_equal]
pub struct PoseV {
    pub map: Seq<char>,
    pub x: i32,
    pub y: i32,
}

impl View for PlayerPose {
    type V = PoseV;

    open spec fn view(&self) -> PoseV {
        PoseV { map: self.map@, x: self.x, y: self.y }
    }
}

impl PlayerPose {
    pub fn same(&self, other: &PlayerPose) -> (r: bool)
        ensures
            r == (self@ == other@),
    {
        self.x == other.x && self.y == other.y && self.map == other.map
    }

    pub fn copy(&self) -> (p: PlayerPose)
        ensures
            p == *self,
    {
        PlayerPose { map: self.map.clone(), x: self.x, y: self.y }
    }
}

#[derive(Debug, Clone, Copy, PartialEq, Eq, Structural)]
pub enum BattleMenu {
    Command { column: u8, row: u8 },
    Moves { column: u8, row: u8 },
}

#[derive(Debug, Clone, Copy, PartialEq, Eq, Structural)]
pub enum ShinyReading {
    Normal,
    Shiny,
    Unclear,
}

#[derive(Debug, Clone, PartialEq, Eq)]
pub struct BattleObservation {
    pub menu: Option<BattleMenu>,
    pub player_name: Option<String>,
    pub player_level: Option<u8>,
    pub player_hp_numbers: Option<(u16, u16)>,
    pub opponent_name: Option<String>,
    pub opponent_level: Option<u8>,
    /// Our HP bar, per mille.
    pub player_hp: Option<u16>,
    /// The opponent's HP bar, per mille.
    pub opponent_hp: Option<u16>,
    /// PP and maximum PP of the move under the cursor.
    pub move_pp: Option<(u8, u8)>,
    pub move_names: Vec<String>,
    pub opponent_caught: Option<bool>,
    pub opponent_shiny: Option<ShinyReading>,
}

#[derive(Debug, Clone, PartialEq, Eq)]
pub struct BagObservation {
    pub pocket: String,
    /// The visible rows: the printed name, and the count where one shows.
    pub rows: Vec<(String, Option<u16>)>,
    pub cursor: Option<u8>,
    /// The USE / CANCEL prompt: its rows, and the ▶'s row.
    pub prompt: Option<(Vec<String>, u8)>,
}

#[derive(Debug, Clone, PartialEq, Eq)]
pub struct ShopObservation {
    pub money: Option<u32>,
    /// The visible rows: the printed name and the price.
    pub items: Vec<(String, Option<u32>)>,
    pub cursor: Option<u8>,
    /// The quantity box: the count and the total price.
    pub quantity: Option<(u16, u32)>,
}

#[derive(Debug, Clone, PartialEq, Eq)]
pub struct MoveListObservation {
    /// The printed move names, the offered move last.
    pub moves: Vec<String>,
    pub selected: Option<u8>,
}

#[derive(Debug, Clone, Copy, PartialEq, Eq, Structural)]
pub struct PartyMenuObservation {
    /// The list of actions for one member is open.
    pub actions: bool,
    pub selected: Option<u8>,
}

#[derive(Debug, Clone, Copy, PartialEq, Eq, Structural)]
pub enum SummaryPage {
    Info,
    Skills,
    Moves,
}

/// One frame as the detectors read it.
#[derive(Debug, Clone, PartialEq, Eq)]
pub struct Observation {
    pub frame_id: u64,
    pub screen: ScreenState,
    pub player: Option<PlayerPose>,
    pub dialogue: Option<DialogueObservation>,
    pub menu: Option<MenuObservation>,
    /// The menu's rows as read, top to bottom.
    pub menu_lines: Vec<String>,
    pub naming: Option<NamingObservation>,
    pub battle: Option<BattleObservation>,
    pub bag: Option<BagObservation>,
    pub shop: Option<ShopObservation>,
    pub move_list: Option<MoveListObservation>,
    pub party_menu: Option<PartyMenuObservation>,
    pub summary: Option<SummaryPage>,
    /// The Pokédex entry page of a first catch is showing.
    pub pokedex_page: bool,
}

impl Observation {
    /// A frame that shows nothing but a screen of a kind.
    pub fn bare(frame_id: u64, screen: ScreenState) -> (o: Observation)
        ensures
            o.frame_id == frame_id,
            o.screen == screen,
            o.player is None,
            o.dialogue is None,
            o.menu is None,
            o.menu_lines@.len() == 0,
            o.naming is None,
            o.battle is None,
            o.bag is None,
            o.shop is None,
            o.move_list is None,
            o.party_menu is None,
            o.summary is None,
            !o.pokedex_page,
    {
        Observation {
            frame_id,
            screen,
            player: None,
            dialogue: None,
            menu: None,
            menu_lines: Vec::new(),
            naming: None,
            battle: None,
            bag: None,
            shop: None,
            move_list: None,
            party_menu: None,
            summary: None,
            pokedex_page: false,
        }
    }
}

/// The characters of each line.
pub open spec fn lines_of(s: Seq<String>) -> Seq<Seq<char>> {
    s.map_values(|l: String| l@)
}

/// The rows of a list as read: the characters of each name, and its number.
pub open spec fn rows_of<N>(s: Seq<(String, Option<N>)>) -> Seq<(Seq<char>, Option<N>)> {
    s.map_values(|r: (String, Option<N>)| (r.0@, r.1))
}

} // verus!
