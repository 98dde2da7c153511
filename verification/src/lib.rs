use vstd::prelude::*;

pub mod states;
pub mod slot_table;
pub mod battle;
pub mod turn;
pub mod abilities;
pub mod text_input;
pub mod data;
pub mod config;
pub mod splash;
pub mod typing;
pub mod strings;
pub mod character;
pub mod audio;
pub mod environment;
pub mod player;
pub mod ui;
pub mod camera;
pub mod collision;
pub mod menu;
pub mod spawn;

verus! {
}
