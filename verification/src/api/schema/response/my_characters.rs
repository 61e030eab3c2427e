use crate::api::schema::types::{
    bank::BankGold,
    character::{Character, Cooldown},
    fight::Fight,
    item::{Item, ItemComponent, ItemDetails, ItemSlot, Recycle},
    map::GameMap,
};
use vstd::prelude::*;

verus! {

#[derive(Clone, Debug)]
pub struct CharacterMovementData {
    /// Cooldown details.
    pub cooldown: Cooldown,
    /// Destination details.
    pub destination: GameMap,
    /// Character details.
    pub character: Character,
}

#[derive(Clone, Debug)]
pub struct CharacterRestData {
    /// Cooldown details.
    pub cooldown: Cooldown,
    /// The amount of HP restored.
    pub hp_restored: u32,
    /// Character details.
    pub character: Character,
}

#[derive(Clone, Debug)]
pub struct CharacterEquipData {
    /// Cooldown details.
    pub cooldown: Cooldown,
    /// Item slot.
    pub slot: ItemSlot,
    /// Item details.
    pub item: Item,
    /// Character details.
    pub character: Character,
}

#[derive(Clone, Debug)]
pub struct CharacterUseItemData {
    /// Cooldown details.
    pub cooldown: Cooldown,
    /// Item details.
    pub item: Item,
    /// Character details.
    pub character: Character,
}

#[derive(Clone, Debug)]
pub struct CharacterFightData {
    /// Cooldown details
    pub cooldown: Cooldown,
    /// fight details.
    pub fight: Fight,
    /// Character details.
    pub character: Character,
}

#[derive(Clone, Debug)]
pub struct CharacterGatherData {
    /// Cooldown details.
    pub cooldown: Cooldown,
    /// item details.
    pub details: ItemDetails,
    /// Character details.
    pub character: Character,
}

#[derive(Clone, Debug)]
pub struct CharacterCraftData {
    /// Cooldown details.
    pub cooldown: Cooldown,
    /// item details.
    pub details: ItemDetails,
    /// Character details.
    pub character: Character,
}

#[derive(Clone, Debug)]
pub struct CharacterGoldTransactionData {
    /// Cooldown details.
    pub cooldown: Cooldown,
    /// Bank details.
    pub bank: BankGold,
    /// Character details.
    pub character: Character,
}

#[derive(Clone, Debug)]
pub struct CharacterItemTransactionData {
    /// Cooldown details.
    pub cooldown: Cooldown,
    /// Item details.
    pub item: Item,
    /// Bank details.
    pub bank: Vec<ItemComponent>,
    /// Character details.
    pub character: Character,
}

#[derive(Clone, Debug)]
pub struct CharacterRecycleData {
    /// Cooldown details.
    pub cooldown: Cooldown,
    /// recycling details.
    pub details: Recycle,
    /// Character details.
    pub character: Character,
}

} // verus!
