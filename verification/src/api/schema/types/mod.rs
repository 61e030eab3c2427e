pub mod bank;
pub mod character;
pub mod fight;
pub mod item;
pub mod map;
pub mod monster;
