use super::character::Skill;
use vstd::prelude::*;

verus! {

/// A type alias for an item code, which is represented as a `String` with match pattern `^[a-zA-Z0-9_-]+$`.
pub type ItemCode = String;

/// Represents an item.
#[derive(Clone, Debug)]
pub struct Item {
    pub name: String,
    pub code: ItemCode,
    pub level: u32,
    pub item_type: ItemType,
    pub sub_type: Option<ItemSubType>,
    pub description: String,
    pub effects: Vec<ItemEffect>,
    pub craft: Option<Craft>,
}

/// Represents a resource.
#[derive(Clone, Debug)]
pub struct Resource {
    pub name: String,
    pub code: ItemCode,
    pub skill: Skill,
    pub level: i32,
    pub drops: Vec<ResourceDrop>,
}

/// Represents a resource drop.
#[derive(Clone, Debug)]
pub struct ResourceDrop {
    pub code: ItemCode,
    pub rate: u32,
    pub min_quantity: u32,
    pub max_quantity: u32,
}

/// Represents craft information.
#[derive(Clone, Debug)]
pub struct Craft {
    pub skill: Skill,
    pub level: u32,
    pub items: Vec<ItemComponent>,
    pub quantity: u32,
}

/// Represents recycle information.
#[derive(Clone, Debug)]
pub struct Recycle {
    pub items: Vec<ItemComponent>,
}

/// Represents an item drop.
#[derive(Clone, Debug, Default)]
pub struct ItemComponent {
    /// The code of the item.
    pub code: ItemCode,
    /// The quantity of the item.
    pub quantity: u32,
}

#[derive(Clone, Debug, Default)]
pub struct ItemDetails {
    /// The amount of xp gained.
    pub xp: i32,
    /// Objects received.
    pub items: Vec<ItemComponent>,
}

/// Represents the specific subtypes of items that can exist within the game.
#[derive(Clone, Debug)]
pub enum ItemSubType {
    /// A mask item subtype.
    Mask,
    /// A helm item subtype.
    Helm,
    /// A dagger weapon subtype.
    Dagger,
    /// A staff weapon subtype.
    Staff,
    /// A sword weapon subtype.
    Sword,
    /// A bow weapon subtype.
    Bow,
    /// A tool subtype.
    Tool,
    /// A whip weapon subtype.
    Whip,
    /// An axe weapon subtype.
    Axe,
    /// A wand weapon subtype.
    Wand,
    /// A subtype representing mining resources.
    Mining,
    /// A subtype related to mobs, potentially for mob-specific items or drops.
    Mob,
    /// A subtype related to woodcutting resources.
    WoodCutting,
    /// A subtype related to fishing resources.
    Fishing,
    /// A food item subtype, typically consumable by the character.
    Food,
    /// A bar item subtype, representing a refined metal or resource.
    Bar,
    /// A plank item subtype, representing a transformed wood or ressource.
    Plank,
    /// An alloy item subtype.
    Alloy,
    /// A coat item subtype.
    Coat,
    /// Any subtype this library does not know by name.
    Unknown,
}

/// Represents the various types of items that can exist within the game.
#[derive(Clone, Debug, PartialEq, Eq, Hash, Structural)]
pub enum ItemType {
    /// An item that can be equipped as a helmet.
    Helmet,
    /// An item that can be used as a weapon.
    Weapon,
    /// A resource item, typically used for crafting or other activities.
    Resource,
    /// A consumable item that can be used or consumed by the character.
    Consumable,
    /// An item that can be equipped as boots.
    Boots,
    /// An item representing currency, used for transactions within the game.
    Currency,
    /// An item that can be equipped as a shield.
    Shield,
    /// An item that can be equipped as a ring.
    Ring,
    /// An item that can be equipped as body armor.
    BodyArmor,
    /// An item that can be equipped as leg armor.
    LegArmor,
    /// An item that can be equipped as an amulet.
    Amulet,
    /// An item that can be equipped as artifact.
    Artifact,
    /// An item that can be consumed by the character.
    Food,
    /// An item that can be used by the character.
    Utility,
}

/// Represents the various item slots available for a character.
#[derive(Clone, Copy, Debug, PartialEq, Eq, Hash, Structural)]
pub enum ItemSlot {
    /// The weapon slot.
    Weapon,
    /// The shield slot.
    Shield,
    /// The helmet slot.
    Helmet,
    /// The body armor slot.
    BodyArmor,
    /// The leg armor slot.
    LegArmor,
    /// The boots slot.
    Boots,
    /// The first ring slot.
    Ring1,
    /// The second ring slot.
    Ring2,
    /// The amulet slot.
    Amulet,
    /// The first artifact slot.
    Artifact1,
    /// The second artifact slot.
    Artifact2,
    /// The third artifact slot.
    Artifact3,
    /// The first consumable slot.
    Utility1,
    /// The second consumable slot.
    Utility2,
    /// Undefined slot.
    Undefined,
}

impl ItemType {
    /// The slots an item of this type may occupy, in the order in which they
    /// are tried. Types that cannot be equipped have none.
    pub open spec fn candidate_slots(self) -> Seq<ItemSlot> {
        match self {
            ItemType::Helmet => seq![ItemSlot::Helmet],
            ItemType::Weapon => seq![ItemSlot::Weapon],
            ItemType::Shield => seq![ItemSlot::Shield],
            ItemType::Ring => seq![ItemSlot::Ring1, ItemSlot::Ring2],
            ItemType::BodyArmor => seq![ItemSlot::BodyArmor],
            ItemType::LegArmor => seq![ItemSlot::LegArmor],
            ItemType::Boots => seq![ItemSlot::Boots],
            ItemType::Amulet => seq![ItemSlot::Amulet],
            ItemType::Artifact => seq![ItemSlot::Artifact1, ItemSlot::Artifact2, ItemSlot::Artifact3],
            ItemType::Consumable | ItemType::Food | ItemType::Utility => seq![
                ItemSlot::Utility1,
                ItemSlot::Utility2,
            ],
            ItemType::Resource | ItemType::Currency => seq![],
        }
    }

    /// Get possible slots for this item type
    pub fn possible_slots(&self) -> (slots: Vec<ItemSlot>)
        ensures
            slots@ == self.candidate_slots(),
    {
        match self {
            ItemType::Helmet => vec![ItemSlot::Helmet],
            ItemType::Weapon => vec![ItemSlot::Weapon],
            ItemType::Shield => vec![ItemSlot::Shield],
            ItemType::Ring => vec![ItemSlot::Ring1, ItemSlot::Ring2],
            ItemType::BodyArmor => vec![ItemSlot::BodyArmor],
            ItemType::LegArmor => vec![ItemSlot::LegArmor],
            ItemType::Boots => vec![ItemSlot::Boots],
            ItemType::Amulet => vec![ItemSlot::Amulet],
            ItemType::Artifact => vec![ItemSlot::Artifact1, ItemSlot::Artifact2, ItemSlot::Artifact3],
            ItemType::Consumable | ItemType::Food | ItemType::Utility => {
                vec![ItemSlot::Utility1, ItemSlot::Utility2]
            },
            _ => vec![],
        }
    }
}

impl ItemSlot {
    /// Whether this slot is one of the twelve equipment slots, each of which
    /// takes items of exactly one type.
    pub open spec fn is_equipment(self) -> bool {
        !(self is Utility1 || self is Utility2 || self is Undefined)
    }

    /// The item type that an equipment slot takes.
    pub open spec fn item_type(self) -> ItemType
        recommends
            self.is_equipment(),
    {
        match self {
            ItemSlot::Weapon => ItemType::Weapon,
            ItemSlot::Shield => ItemType::Shield,
            ItemSlot::Helmet => ItemType::Helmet,
            ItemSlot::BodyArmor => ItemType::BodyArmor,
            ItemSlot::LegArmor => ItemType::LegArmor,
            ItemSlot::Boots => ItemType::Boots,
            ItemSlot::Ring1 | ItemSlot::Ring2 => ItemType::Ring,
            ItemSlot::Amulet => ItemType::Amulet,
            _ => ItemType::Artifact,
        }
    }

    /// The item type that this equipment slot takes. The utility slots and the
    /// undefined slot have no single item type and are not accepted.
    pub fn to_item_type(&self) -> (item_type: ItemType)
        requires
            self.is_equipment(),
        ensures
            item_type == self.item_type(),
    {
        match self {
            ItemSlot::Weapon => ItemType::Weapon,
            ItemSlot::Shield => ItemType::Shield,
            ItemSlot::Helmet => ItemType::Helmet,
            ItemSlot::BodyArmor => ItemType::BodyArmor,
            ItemSlot::LegArmor => ItemType::LegArmor,
            ItemSlot::Boots => ItemType::Boots,
            ItemSlot::Ring1 | ItemSlot::Ring2 => ItemType::Ring,
            ItemSlot::Amulet => ItemType::Amulet,
            ItemSlot::Artifact1 | ItemSlot::Artifact2 | ItemSlot::Artifact3 => ItemType::Artifact,
            _ => ItemType::Artifact,
        }
    }
}

/// An equipment slot is a candidate slot of the item type it takes, and
/// every candidate slot of an item type that is not a utility slot takes
/// that item type.
pub proof fn lemma_slot_and_type_agree(slot: ItemSlot, item_type: ItemType)
    ensures
        slot.is_equipment() ==> slot.item_type().candidate_slots().contains(slot),
        item_type.candidate_slots().contains(slot) && slot.is_equipment() ==> slot.item_type()
            == item_type,
{
    let s = slot.item_type().candidate_slots();
    if slot.is_equipment() {
        match slot {
            ItemSlot::Ring2 | ItemSlot::Artifact2 => {
                assert(s[1] == slot);
            },
            ItemSlot::Artifact3 => {
                assert(s[2] == slot);
            },
            _ => {
                assert(s[0] == slot);
            },
        }
    }
}

/// An effect of an item. Effects are told apart by their name alone: two
/// effects of one name are equal whatever their values.
#[derive(Clone, Debug)]
pub struct ItemEffect {
    pub name: String,
    pub value: i32,
}

impl PartialEq for ItemEffect {
    fn eq(&self, other: &Self) -> (equal: bool) {
        self.name == other.name
    }
}

impl vstd::std_specs::cmp::PartialEqSpecImpl for ItemEffect {
    open spec fn obeys_eq_spec() -> bool {
        true
    }

    open spec fn eq_spec(&self, other: &Self) -> bool {
        self.name@ == other.name@
    }
}

impl Eq for ItemEffect {

}

impl std::hash::Hash for ItemEffect {
    /// Feeds the effect's name, and nothing else, to the hasher through
    /// `String::hash`, so that effects that compare equal hash alike.
    #[verifier::external_body]
    fn hash<H: std::hash::Hasher>(&self, state: &mut H) {
        self.name.hash(state);
    }
}

} // verus!
