//! Goal-driven, closed-loop control of a handheld game.

pub mod action;
pub mod bag;
pub mod battle;
pub mod belief_view;
pub mod catch;
pub mod catch_odds;
pub mod checkpoint;
pub mod console;
pub mod event;
pub mod executor;
pub mod gamedata;
pub mod goal;
pub mod goal_loop;
pub mod goal_session;
pub mod input;
pub mod keyboard;
pub mod learn;
pub mod mart;
pub mod motion;
pub mod moves;
pub mod nav;
pub mod navigator;
pub mod new_game;
pub mod observe;
pub mod party;
pub mod paths;
pub mod pending;
pub mod progress;
pub mod promises;
pub mod recovery;
pub mod route;
pub mod save;
pub mod scheduler;
pub mod search;
pub mod shop;
pub mod state;
pub mod stock;
pub mod task_run;
pub mod text;
pub mod world;
