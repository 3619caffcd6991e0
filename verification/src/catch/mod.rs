//! Whether and how to catch a wild Pokémon.
//!
//! A shiny is always caught, with any ball including the reserve. Otherwise
//! a species not caught yet is caught when balls above the shiny reserve
//! are held and the odds ([`crate::catch_odds`]) are good. Every turn the odds
//! are solved again from the HUD and the best action taken: throw, sleep or
//! paralyse it, an attack unlikely to faint it, or RUN. Trainers' Pokémon are
//! never caught, and unknown facts (caught flag, ball stock) decline the catch
//! rather than guess.
//!
//! The flow in battle: [`identify`] reads the wild opponent once (two
//! agreeing command-menu frames), emits what the Pokédex learns and plans
//! the catch; the battle decision then plays the odds' choice each turn
//! ([`attempt_decision`]); [`Thrower`] goes through the battle bag;
//! [`CatchMemory::observe`] reads the result, the foe's status and the PC
//! box from battle text.
//!
//! The species a hunt is after ([`CatchMemory::wanted`]) is the goal, not
//! an extra: running from it throws the encounter away, so only our lead's
//! risk declines it. It may throw the shiny reserve too (the hunt restocks
//! afterwards), and neither a low chance, a worn lead nor an unread caught
//! icon or pocket stops the attempt.
//!
//! The odds themselves are solved outside: [`catch_question`],
//! [`identify_question`] and [`attempt_question`] say which are wanted, and
//! the answer is handed to the function that decides by it.

pub mod flow;
pub mod page;
pub mod plan;
pub mod thrower;

pub use flow::{
    attempt_decision, attempt_question, dismiss_pokedex, identify, identify_question, in_bag,
    observe, Attempt, CatchMemory,
};
pub use page::{
    foe_status_text, is_nickname_question, throw_text, ThrowOutcome,
};
pub use plan::{
    ball_budget, balls_held, best_ball, catch_question, judge, plan_catch, plan_catch_wanted,
    CatchPlan, Foe, OddsQuestion, CATCH_MIN_HP,
};
pub use crate::catch_odds::{FoeStatus, Lead};
pub use thrower::Thrower;
