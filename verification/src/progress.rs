//! The bot's own memory of a save file: which milestones are done and where
//! it saved. Written only right after a successful in-game save, so it always
//! matches the cartridge.

use vstd::prelude::*;

use crate::new_game::NewGameConfig;
use crate::observe::{Gender, PlayerPose};
use crate::party::Party;
use crate::paths::{extended_by, with_extension};

verus! {

/// The Pokémon a game begins with.
#[derive(Debug, Clone, Copy, PartialEq, Eq, Structural)]
pub enum Starter {
    Bulbasaur,
    Charmander,
    Squirtle,
}

#[derive(Debug, Clone, PartialEq, Eq)]
pub struct Progress {
    pub player_name: String,
    pub rival_name: String,
    pub gender: Gender,
    pub starter: Starter,
    /// Milestone names completed, in order.
    pub milestones: Vec<String>,
    /// Where the game was saved (and where CONTINUE resumes).
    pub saved_at: Option<PlayerPose>,
    /// Party knowledge of files that have no knowledge beside them.
    pub party: Party,
}

impl Progress {
    /// `roms/Game.sav` → `roms/Game.pokebot.json`
    pub fn path_for(save: &str) -> (s: String)
        ensures
            s@ == extended_by(save@, "pokebot.json"@),
    {
        with_extension(save, "pokebot.json")
    }

    /// The progress of a game just begun: nothing done, nothing saved.
    pub fn fresh(config: &NewGameConfig, starter: Starter) -> (p: Progress)
        ensures
            p.player_name@ == config.player_name@,
            p.rival_name@ == config.rival_name@,
            p.gender == config.gender,
            p.starter == starter,
            p.milestones@.len() == 0,
            p.saved_at is None,
            p.party.members@.len() == 0,
    {
        Progress {
            player_name: config.player_name.clone(),
            rival_name: config.rival_name.clone(),
            gender: config.gender,
            starter,
            milestones: Vec::new(),
            saved_at: None,
            party: Party { members: Vec::new() },
        }
    }
}

} // verus!
