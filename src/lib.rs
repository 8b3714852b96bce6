//! Attribute algebra of a role-playing game: attribute vectors, the holder
//! capability, equippable items and professions.

pub mod item;
pub mod profession;
pub mod stat;

pub use item::{BloodBag, ChestPlate, Helmet, ItemTrait, Leggings, Sword, Wand};
pub use profession::{Knight, Profession, ProfessionKind, ProfessionType, Sorcerer, Warrior};
pub use stat::{Stat, StatTrait};
