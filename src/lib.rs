pub mod bank;
pub mod combat;
pub mod data;
pub mod entity;
pub mod equipment;
pub mod game;
pub mod inventory;
mod random;
pub mod save;
pub mod skills;
pub mod ui;
pub mod world;
pub mod world_objects;
