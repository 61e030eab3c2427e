use super::item::{ItemSlot, ItemType};
use crate::api::text::{lowercase_of, to_lowercase};
use vstd::prelude::*;
use vstd::string::*;

verus! {

#[derive(Clone, Debug, Default)]
pub struct Character {
    /// Name of the character.
    pub name: String,
    /// Account name.
    pub account: String,
    /// Character skin code.
    pub skin: Skin,
    /// Character movement speed.
    pub speed: i32,
    /// Coordinates.
    pub position: Position,
    /// Combat stats.
    pub combat_stats: CombatStats,
    /// Skills.
    pub skills: Skills,
    /// Elemental attributes.
    pub elemental_attributes: ElementalAttributes,
    /// Equipment slots.
    pub equipment: Equipment,
    /// Utility slots.
    pub utilities: Utilities,
    /// Task details.
    pub task: Task,
    /// Inventory details.
    pub inventory_info: InventoryInfo,
    /// Cooldown details.
    pub cooldown_info: CooldownInfo,
}

#[derive(Clone, Debug, Default)]
pub struct Position {
    pub x: i32,
    pub y: i32,
}

#[derive(Clone, Debug, Default)]
pub struct CombatStats {
    /// Combat level.
    pub level: i32,
    /// The current XP of the combat level.
    pub xp: i32,
    /// XP required to level up the character.
    pub max_xp: i32,
    /// The number of gold on this character.
    pub gold: i32,
    /// Character HP.
    pub hp: i32,
    /// Character max HP.
    pub max_hp: i32,
    /// Character Haste.
    pub haste: i32,
    /// Character Critical Strike.
    pub critical_strike: i32,
    /// Character Stamina.
    pub stamina: i32,
}

#[derive(Clone, Debug, Default)]
pub struct Skills {
    pub mining_level: Option<u32>,
    pub mining_xp: Option<u32>,
    pub mining_max_xp: Option<u32>,
    pub woodcutting_level: Option<u32>,
    pub woodcutting_xp: Option<u32>,
    pub woodcutting_max_xp: Option<u32>,
    pub fishing_level: Option<u32>,
    pub fishing_xp: Option<u32>,
    pub fishing_max_xp: Option<u32>,
    pub weaponcrafting_level: Option<u32>,
    pub weaponcrafting_xp: Option<u32>,
    pub weaponcrafting_max_xp: Option<u32>,
    pub gearcrafting_level: Option<u32>,
    pub gearcrafting_xp: Option<u32>,
    pub gearcrafting_max_xp: Option<u32>,
    pub jewelrycrafting_level: Option<u32>,
    pub jewelrycrafting_xp: Option<u32>,
    pub jewelrycrafting_max_xp: Option<u32>,
    pub cooking_level: Option<u32>,
    pub cooking_xp: Option<u32>,
    pub cooking_max_xp: Option<u32>,
    pub alchemy_level: Option<u32>,
    pub alchemy_xp: Option<u32>,
    pub alchemy_max_xp: Option<u32>,
}

#[derive(Clone, Debug, Default)]
pub struct ElementalAttributes {
    /// Elemental attacks.
    pub attack_fire: i32,
    pub attack_earth: i32,
    pub attack_water: i32,
    pub attack_air: i32,
    /// Elemental damage bonuses.
    pub dmg_fire: i32,
    pub dmg_earth: i32,
    pub dmg_water: i32,
    pub dmg_air: i32,
    /// Elemental resistances.
    pub res_fire: i32,
    pub res_earth: i32,
    pub res_water: i32,
    pub res_air: i32,
}

/// The item codes that a character wears, one per equipment slot. An empty
/// code means that nothing is worn in that slot.
#[derive(Clone, Debug, Default)]
pub struct Equipment {
    pub weapon_slot: String,
    pub shield_slot: String,
    pub helmet_slot: String,
    pub body_armor_slot: String,
    pub leg_armor_slot: String,
    pub boots_slot: String,
    pub ring1_slot: String,
    pub ring2_slot: String,
    pub amulet_slot: String,
    pub artifact1_slot: String,
    pub artifact2_slot: String,
    pub artifact3_slot: String,
}

impl Equipment {
    /// The code recorded for `slot`. The equipment has a record for each of
    /// the twelve equipment slots and none for the others.
    pub open spec fn code_in(&self, slot: ItemSlot) -> Option<Seq<char>> {
        match slot {
            ItemSlot::Weapon => Some(self.weapon_slot@),
            ItemSlot::Shield => Some(self.shield_slot@),
            ItemSlot::Helmet => Some(self.helmet_slot@),
            ItemSlot::BodyArmor => Some(self.body_armor_slot@),
            ItemSlot::LegArmor => Some(self.leg_armor_slot@),
            ItemSlot::Boots => Some(self.boots_slot@),
            ItemSlot::Ring1 => Some(self.ring1_slot@),
            ItemSlot::Ring2 => Some(self.ring2_slot@),
            ItemSlot::Amulet => Some(self.amulet_slot@),
            ItemSlot::Artifact1 => Some(self.artifact1_slot@),
            ItemSlot::Artifact2 => Some(self.artifact2_slot@),
            ItemSlot::Artifact3 => Some(self.artifact3_slot@),
            ItemSlot::Utility1 | ItemSlot::Utility2 | ItemSlot::Undefined => None,
        }
    }

    /// A slot is empty when the equipment has a record for it and the
    /// recorded code is the empty text.
    pub open spec fn slot_empty(&self, slot: ItemSlot) -> bool {
        self.code_in(slot) == Some(Seq::<char>::empty())
    }

    /// The code of the item worn in `slot`, if any.
    pub open spec fn worn_in(&self, slot: ItemSlot) -> Option<Seq<char>> {
        match self.code_in(slot) {
            Some(code) => if code.len() == 0 {
                None
            } else {
                Some(code)
            },
            None => None,
        }
    }

    /// The first of `slots`, from index `from` on, that is empty.
    pub open spec fn first_empty(&self, slots: Seq<ItemSlot>, from: int) -> Option<ItemSlot>
        decreases slots.len() - from,
    {
        if from < 0 || from >= slots.len() {
            None
        } else if self.slot_empty(slots[from]) {
            Some(slots[from])
        } else {
            self.first_empty(slots, from + 1)
        }
    }

    /// Check if a slot is empty
    pub fn is_slot_empty(&self, slot: &ItemSlot) -> (empty: bool)
        ensures
            empty == self.slot_empty(*slot),
    {
        let empty = match slot {
            ItemSlot::Weapon => self.weapon_slot.as_str().is_empty(),
            ItemSlot::Shield => self.shield_slot.as_str().is_empty(),
            ItemSlot::Helmet => self.helmet_slot.as_str().is_empty(),
            ItemSlot::BodyArmor => self.body_armor_slot.as_str().is_empty(),
            ItemSlot::LegArmor => self.leg_armor_slot.as_str().is_empty(),
            ItemSlot::Boots => self.boots_slot.as_str().is_empty(),
            ItemSlot::Ring1 => self.ring1_slot.as_str().is_empty(),
            ItemSlot::Ring2 => self.ring2_slot.as_str().is_empty(),
            ItemSlot::Amulet => self.amulet_slot.as_str().is_empty(),
            ItemSlot::Artifact1 => self.artifact1_slot.as_str().is_empty(),
            ItemSlot::Artifact2 => self.artifact2_slot.as_str().is_empty(),
            ItemSlot::Artifact3 => self.artifact3_slot.as_str().is_empty(),
            _ => false,
        };
        proof {
            if let Some(code) = self.code_in(*slot) {
                assert((code.len() == 0) == (code =~= Seq::<char>::empty()));
            }
        }
        empty
    }

    /// Get the item code in a specific slot
    pub fn item_in_slot(&self, slot: &ItemSlot) -> (item: Option<&str>)
        ensures
            match item {
                Some(code) => self.worn_in(*slot) == Some(code@),
                None => self.worn_in(*slot) is None,
            },
    {
        let item = match slot {
            ItemSlot::Weapon => &self.weapon_slot,
            ItemSlot::Shield => &self.shield_slot,
            ItemSlot::Helmet => &self.helmet_slot,
            ItemSlot::BodyArmor => &self.body_armor_slot,
            ItemSlot::LegArmor => &self.leg_armor_slot,
            ItemSlot::Boots => &self.boots_slot,
            ItemSlot::Ring1 => &self.ring1_slot,
            ItemSlot::Ring2 => &self.ring2_slot,
            ItemSlot::Amulet => &self.amulet_slot,
            ItemSlot::Artifact1 => &self.artifact1_slot,
            ItemSlot::Artifact2 => &self.artifact2_slot,
            ItemSlot::Artifact3 => &self.artifact3_slot,
            _ => return None,
        };
        if item.as_str().is_empty() {
            None
        } else {
            Some(item.as_str())
        }
    }

    /// Find first available slot for an item type
    pub fn find_available_slot(&self, item_type: &ItemType) -> (found: Option<ItemSlot>)
        ensures
            found == self.first_empty(item_type.candidate_slots(), 0),
    {
        let mut possible_slots = item_type.possible_slots();
        let ghost candidates = possible_slots@;
        let mut skipped: usize = 0;
        while possible_slots.len() > 0
            invariant
                candidates == item_type.candidate_slots(),
                candidates.len() <= usize::MAX,
                skipped + possible_slots.len() == candidates.len(),
                possible_slots@ == candidates.skip(skipped as int),
                self.first_empty(candidates, 0) == self.first_empty(candidates, skipped as int),
            decreases possible_slots.len(),
        {
            let slot = possible_slots.remove(0);
            assert(slot == candidates[skipped as int]);
            if self.is_slot_empty(&slot) {
                return Some(slot);
            }
            assert(possible_slots@ =~= candidates.skip(skipped + 1));
            skipped = skipped + 1;
        }
        None
    }
}

/// Looking up an empty slot finds no item; looking up a slot whose recorded
/// code is not empty finds exactly that code; and the slots for which the
/// equipment keeps no record are neither empty nor occupied.
pub proof fn lemma_slot_lookup(equipment: Equipment, slot: ItemSlot)
    ensures
        equipment.slot_empty(slot) ==> equipment.worn_in(slot) is None,
        forall|code: Seq<char>|
            equipment.code_in(slot) == Some(code) && code.len() > 0 ==> equipment.worn_in(slot)
                == Some(code),
        !slot.is_equipment() ==> !equipment.slot_empty(slot) && equipment.worn_in(slot) is None,
{
}

/// What `find_available_slot` returns is the first candidate slot of the
/// item type that is empty: it is a candidate, it is empty, and no candidate
/// before it is. If it returns nothing, no candidate slot is empty.
pub proof fn lemma_first_empty(equipment: Equipment, slots: Seq<ItemSlot>, from: int)
    requires
        0 <= from <= slots.len(),
    ensures
        match equipment.first_empty(slots, from) {
            Some(slot) => exists|i: int|
                from <= i < slots.len() && slots[i] == slot && equipment.slot_empty(slot) && forall|
                    j: int,
                | from <= j < i ==> !equipment.slot_empty(#[trigger] slots[j]),
            None => forall|j: int|
                from <= j < slots.len() ==> !equipment.slot_empty(#[trigger] slots[j]),
        },
    decreases slots.len() - from,
{
    if from < slots.len() {
        if equipment.slot_empty(slots[from]) {
            assert(slots[from] == slots[from]);
        } else {
            lemma_first_empty(equipment, slots, from + 1);
        }
    }
}

#[derive(Clone, Debug, Default)]
pub struct Utilities {
    /// Utility slots.
    pub utility1_slot: String,
    pub utility1_slot_quantity: i32,
    pub utility2_slot: String,
    pub utility2_slot_quantity: i32,
}

#[derive(Clone, Debug, Default)]
pub struct Task {
    /// Task details.
    pub task: String,
    pub task_type: String,
    pub task_progress: i32,
    pub task_total: i32,
}

#[derive(Clone, Debug, Default)]
pub struct InventoryInfo {
    /// Inventory details.
    pub inventory_max_items: u32,
    pub inventory: Option<Vec<InventorySlot>>,
}

#[derive(Clone, Debug, Default)]
pub struct CooldownInfo {
    /// Cooldown details.
    pub cooldown: i32,
    pub cooldown_expiration: Option<String>,
}

#[derive(Clone, Debug, Default)]
pub enum Skin {
    #[default]
    Men1,
    Men2,
    Men3,
    Women1,
    Women2,
    Women3,
}

#[derive(Clone, Debug, Default)]
pub struct InventorySlot {
    /// Inventory slot identifier.
    pub slot: i32,
    /// Item code.
    pub code: String,
    /// Quantity in the slot.
    pub quantity: u32,
}

#[derive(Clone, Debug)]
pub struct Cooldown {
    /// The total seconds of the cooldown.
    pub total_seconds: i32,
    /// The remaining seconds of the cooldown.
    pub remaining_seconds: i32,
    /// The start of the cooldown.
    pub started_at: String,
    /// The expiration of the cooldown.
    pub expiration: String,
    /// The reason of the cooldown.
    pub reason: CooldownReason,
}

/// The reason for the cooldown.
#[derive(Clone, Copy, Debug)]
pub enum CooldownReason {
    Movement,
    Fight,
    Crafting,
    Gathering,
    BuyGe,
    SellGe,
    CancelGe,
    DeleteItem,
    Deposit,
    Withdraw,
    DepositGold,
    WithdrawGold,
    Equip,
    Unequip,
    Task,
    ChristmasExchange,
    Recycling,
    Rest,
    Use,
    BuyBankExpansion,
}

/// Represents the different skills that a character has within the game.
#[derive(Clone, Debug, PartialEq, Eq, Hash, Structural)]
pub enum Skill {
    /// Fishing skill, allowing for gathering fish.
    Fishing,
    /// Cooking skill, allowing the preparation of food.
    Cooking,
    /// Gear crafting skill, for creating and enhancing gear.
    Gearcrafting,
    /// Mining skill, for gathering ores and minerals.
    Mining,
    /// Jewelry crafting skill, for making rings and amulets.
    Jewelrycrafting,
    /// Weapon crafting skill, for creating various weapons.
    Weaponcrafting,
    /// Woodcutting skill, for gathering wood and related resources.
    Woodcutting,
    /// Alchemy skill, for creating potion and related resources.
    Alchemy,
    /// Fighting skill
    Fighting,
}

impl Skill {
    /// The lowercase name by which the skill goes on the wire.
    pub open spec fn name(self) -> Seq<char> {
        match self {
            Skill::Fishing => "fishing"@,
            Skill::Cooking => "cooking"@,
            Skill::Gearcrafting => "gearcrafting"@,
            Skill::Mining => "mining"@,
            Skill::Jewelrycrafting => "jewelrycrafting"@,
            Skill::Weaponcrafting => "weaponcrafting"@,
            Skill::Woodcutting => "woodcutting"@,
            Skill::Alchemy => "alchemy"@,
            Skill::Fighting => "fighting"@,
        }
    }

    /// The skill whose name is exactly `text`, if there is one.
    pub open spec fn named(text: Seq<char>) -> Option<Skill> {
        if text == "fishing"@ {
            Some(Skill::Fishing)
        } else if text == "cooking"@ {
            Some(Skill::Cooking)
        } else if text == "gearcrafting"@ {
            Some(Skill::Gearcrafting)
        } else if text == "mining"@ {
            Some(Skill::Mining)
        } else if text == "jewelrycrafting"@ {
            Some(Skill::Jewelrycrafting)
        } else if text == "weaponcrafting"@ {
            Some(Skill::Weaponcrafting)
        } else if text == "woodcutting"@ {
            Some(Skill::Woodcutting)
        } else if text == "alchemy"@ {
            Some(Skill::Alchemy)
        } else if text == "fighting"@ {
            Some(Skill::Fighting)
        } else {
            None
        }
    }

    /// The message with which a text that names no skill is rejected.
    pub open spec fn unknown_message(text: Seq<char>) -> Seq<char> {
        "Unknown skill: "@ + text
    }

    /// What parsing `text` gives: the skill named by its lowercase form, or
    /// the rejection message for `text` as it was written.
    pub open spec fn parsed(text: Seq<char>) -> Result<Skill, Seq<char>> {
        match Skill::named(lowercase_of(text)) {
            Some(skill) => Ok(skill),
            None => Err(Skill::unknown_message(text)),
        }
    }

    pub fn to_string(&self) -> (text: String)
        ensures
            text@ == self.name(),
    {
        match self {
            Skill::Fishing => String::from_str("fishing"),
            Skill::Cooking => String::from_str("cooking"),
            Skill::Gearcrafting => String::from_str("gearcrafting"),
            Skill::Mining => String::from_str("mining"),
            Skill::Jewelrycrafting => String::from_str("jewelrycrafting"),
            Skill::Weaponcrafting => String::from_str("weaponcrafting"),
            Skill::Woodcutting => String::from_str("woodcutting"),
            Skill::Alchemy => String::from_str("alchemy"),
            Skill::Fighting => String::from_str("fighting"),
        }
    }

    pub fn is_gathering(&self) -> (gathering: bool)
        ensures
            gathering == (*self is Mining || *self is Woodcutting || *self is Fishing
                || *self is Alchemy),
    {
        matches!(self, Skill::Mining | Skill::Woodcutting | Skill::Fishing | Skill::Alchemy)
    }

    /// The skill named by a text that is already in lowercase.
    pub fn from_lowercase(lowered: &str) -> (skill: Option<Skill>)
        ensures
            skill == Skill::named(lowered@),
    {
        let text = String::from_str(lowered);
        if text == String::from_str("fishing") {
            Some(Skill::Fishing)
        } else if text == String::from_str("cooking") {
            Some(Skill::Cooking)
        } else if text == String::from_str("gearcrafting") {
            Some(Skill::Gearcrafting)
        } else if text == String::from_str("mining") {
            Some(Skill::Mining)
        } else if text == String::from_str("jewelrycrafting") {
            Some(Skill::Jewelrycrafting)
        } else if text == String::from_str("weaponcrafting") {
            Some(Skill::Weaponcrafting)
        } else if text == String::from_str("woodcutting") {
            Some(Skill::Woodcutting)
        } else if text == String::from_str("alchemy") {
            Some(Skill::Alchemy)
        } else if text == String::from_str("fighting") {
            Some(Skill::Fighting)
        } else {
            None
        }
    }
}

impl std::str::FromStr for Skill {
    type Err = String;

    /// Reads a skill from its name, whatever the case of its letters.
    fn from_str(s: &str) -> (parsed: Result<Self, Self::Err>)
        ensures
            match Skill::parsed(s@) {
                Ok(skill) => parsed == Ok::<Skill, String>(skill),
                Err(message) => parsed is Err && parsed->Err_0@ == message,
            },
    {
        let lowered = to_lowercase(s);
        match Skill::from_lowercase(lowered.as_str()) {
            Some(skill) => Ok(skill),
            None => {
                let mut message = "Unknown skill: ".to_owned();
                message.append(s);
                Err(message)
            },
        }
    }
}

/// No two skills share a name, so the name of a skill names that skill.
pub proof fn lemma_skill_names_distinct(skill: Skill)
    ensures
        Skill::named(skill.name()) == Some(skill),
{
    reveal_strlit("fishing");
    reveal_strlit("cooking");
    reveal_strlit("gearcrafting");
    reveal_strlit("mining");
    reveal_strlit("jewelrycrafting");
    reveal_strlit("weaponcrafting");
    reveal_strlit("woodcutting");
    reveal_strlit("alchemy");
    reveal_strlit("fighting");
    assert("fishing"@.len() == 7 && "fishing"@[0] == 'f');
    assert("cooking"@.len() == 7 && "cooking"@[0] == 'c');
    assert("alchemy"@.len() == 7 && "alchemy"@[0] == 'a');
    assert("gearcrafting"@.len() == 12);
    assert("mining"@.len() == 6);
    assert("jewelrycrafting"@.len() == 15);
    assert("weaponcrafting"@.len() == 14);
    assert("woodcutting"@.len() == 11);
    assert("fighting"@.len() == 8);
}

} // verus!
