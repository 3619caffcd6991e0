//! What the library promises, said of what goes in and what comes out.
//!
//! The laws here speak of buttons, tiles, prices and counts, not of how a
//! result is reached: a cursor comes nearer to the cell that is wanted, a step
//! leads where the path leads, nothing cheaper is passed over.

pub mod bags;
pub mod battle;
pub mod believing;
pub mod catching;
pub mod cursors;
pub mod encounters;
pub mod expecting;
pub mod goals;
pub mod healers;
pub mod health;
pub mod knowing;
pub mod launching;
pub mod learning;
pub mod menus;
pub mod motion;
pub mod moves;
pub mod odds;
pub mod party;
pub mod recovering;
pub mod routes;
pub mod sessions;
pub mod shopping;
pub mod stock;
pub mod tasks;
pub mod walk;
pub mod words;

use vstd::prelude::*;

use crate::executor::DecisionV;
use crate::input::{Button, CommandV};

verus! {

/// The one button that a decision presses.
pub open spec fn button_pressed(d: DecisionV) -> Option<Button> {
    match d {
        DecisionV::Act(a) => if a.commands.len() == 1 {
            match a.commands[0] {
                CommandV::Press(b) => Some(b),
                _ => None,
            }
        } else {
            None
        },
        _ => None,
    }
}

/// Where a press takes a cursor (column, row).
pub open spec fn cursor_after(at: (int, int), b: Button) -> (int, int) {
    match b {
        Button::Up => (at.0, at.1 - 1),
        Button::Down => (at.0, at.1 + 1),
        Button::Left => (at.0 - 1, at.1),
        Button::Right => (at.0 + 1, at.1),
        _ => at,
    }
}

pub open spec fn gap(a: int, b: int) -> int {
    if a < b {
        b - a
    } else {
        a - b
    }
}

/// How many presses two cells are apart.
pub open spec fn apart(a: (int, int), b: (int, int)) -> int {
    gap(a.0, b.0) + gap(a.1, b.1)
}

/// A decision that selects a cell: A exactly where the cursor is on it, and
/// elsewhere a press that takes the cursor one cell nearer.
pub open spec fn selects(d: DecisionV, at: (u8, u8), goal: (int, int)) -> bool {
    let here = (at.0 as int, at.1 as int);
    &&& button_pressed(d) is Some
    &&& button_pressed(d)->0 == Button::A <==> here == goal
    &&& here != goal ==> apart(cursor_after(here, button_pressed(d)->0), goal) == apart(here, goal)
        - 1
}

} // verus!
