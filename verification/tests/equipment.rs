use artifacts_rs::api::schema::types::character::{Equipment, Skill};
use artifacts_rs::api::schema::types::item::{ItemEffect, ItemSlot, ItemType};
use std::collections::hash_map::DefaultHasher;
use std::hash::{Hash, Hasher};
use std::str::FromStr;

fn all_slots() -> Vec<ItemSlot> {
    vec![
        ItemSlot::Weapon,
        ItemSlot::Shield,
        ItemSlot::Helmet,
        ItemSlot::BodyArmor,
        ItemSlot::LegArmor,
        ItemSlot::Boots,
        ItemSlot::Ring1,
        ItemSlot::Ring2,
        ItemSlot::Amulet,
        ItemSlot::Artifact1,
        ItemSlot::Artifact2,
        ItemSlot::Artifact3,
        ItemSlot::Utility1,
        ItemSlot::Utility2,
        ItemSlot::Undefined,
    ]
}

fn recorded(slot: &ItemSlot) -> bool {
    !matches!(slot, ItemSlot::Utility1 | ItemSlot::Utility2 | ItemSlot::Undefined)
}

fn full_equipment() -> Equipment {
    Equipment {
        weapon_slot: "iron_sword".to_string(),
        shield_slot: "wooden_shield".to_string(),
        helmet_slot: "copper_helmet".to_string(),
        body_armor_slot: "copper_armor".to_string(),
        leg_armor_slot: "copper_legs_armor".to_string(),
        boots_slot: "copper_boots".to_string(),
        ring1_slot: "copper_ring".to_string(),
        ring2_slot: "iron_ring".to_string(),
        amulet_slot: "life_amulet".to_string(),
        artifact1_slot: "artifact_a".to_string(),
        artifact2_slot: "artifact_b".to_string(),
        artifact3_slot: "artifact_c".to_string(),
    }
}

fn hash_of(effect: &ItemEffect) -> u64 {
    let mut hasher = DefaultHasher::new();
    effect.hash(&mut hasher);
    hasher.finish()
}

#[test]
fn empty_equipment_has_no_item_in_any_slot() {
    let equipment = Equipment::default();
    for slot in all_slots() {
        assert_eq!(equipment.item_in_slot(&slot), None);
        assert_eq!(equipment.is_slot_empty(&slot), recorded(&slot));
    }
}

#[test]
fn occupied_slots_yield_their_exact_code() {
    let equipment = full_equipment();
    assert_eq!(equipment.item_in_slot(&ItemSlot::Weapon), Some("iron_sword"));
    assert_eq!(equipment.item_in_slot(&ItemSlot::Shield), Some("wooden_shield"));
    assert_eq!(equipment.item_in_slot(&ItemSlot::Helmet), Some("copper_helmet"));
    assert_eq!(equipment.item_in_slot(&ItemSlot::BodyArmor), Some("copper_armor"));
    assert_eq!(equipment.item_in_slot(&ItemSlot::LegArmor), Some("copper_legs_armor"));
    assert_eq!(equipment.item_in_slot(&ItemSlot::Boots), Some("copper_boots"));
    assert_eq!(equipment.item_in_slot(&ItemSlot::Ring1), Some("copper_ring"));
    assert_eq!(equipment.item_in_slot(&ItemSlot::Ring2), Some("iron_ring"));
    assert_eq!(equipment.item_in_slot(&ItemSlot::Amulet), Some("life_amulet"));
    assert_eq!(equipment.item_in_slot(&ItemSlot::Artifact1), Some("artifact_a"));
    assert_eq!(equipment.item_in_slot(&ItemSlot::Artifact2), Some("artifact_b"));
    assert_eq!(equipment.item_in_slot(&ItemSlot::Artifact3), Some("artifact_c"));
    for slot in all_slots() {
        assert!(!equipment.is_slot_empty(&slot));
    }
}

#[test]
fn slots_without_a_record_are_neither_empty_nor_occupied() {
    for equipment in [Equipment::default(), full_equipment()] {
        for slot in [ItemSlot::Utility1, ItemSlot::Utility2, ItemSlot::Undefined] {
            assert!(!equipment.is_slot_empty(&slot));
            assert_eq!(equipment.item_in_slot(&slot), None);
        }
    }
}

#[test]
fn possible_slots_of_each_item_type() {
    assert_eq!(ItemType::Helmet.possible_slots(), vec![ItemSlot::Helmet]);
    assert_eq!(ItemType::Weapon.possible_slots(), vec![ItemSlot::Weapon]);
    assert_eq!(ItemType::Shield.possible_slots(), vec![ItemSlot::Shield]);
    assert_eq!(ItemType::Ring.possible_slots(), vec![ItemSlot::Ring1, ItemSlot::Ring2]);
    assert_eq!(ItemType::BodyArmor.possible_slots(), vec![ItemSlot::BodyArmor]);
    assert_eq!(ItemType::LegArmor.possible_slots(), vec![ItemSlot::LegArmor]);
    assert_eq!(ItemType::Boots.possible_slots(), vec![ItemSlot::Boots]);
    assert_eq!(ItemType::Amulet.possible_slots(), vec![ItemSlot::Amulet]);
    assert_eq!(
        ItemType::Artifact.possible_slots(),
        vec![ItemSlot::Artifact1, ItemSlot::Artifact2, ItemSlot::Artifact3]
    );
    for item_type in [ItemType::Consumable, ItemType::Food, ItemType::Utility] {
        assert_eq!(item_type.possible_slots(), vec![ItemSlot::Utility1, ItemSlot::Utility2]);
    }
    assert_eq!(ItemType::Resource.possible_slots(), Vec::<ItemSlot>::new());
    assert_eq!(ItemType::Currency.possible_slots(), Vec::<ItemSlot>::new());
}

#[test]
fn equipment_slots_name_their_item_type() {
    assert_eq!(ItemSlot::Weapon.to_item_type(), ItemType::Weapon);
    assert_eq!(ItemSlot::Shield.to_item_type(), ItemType::Shield);
    assert_eq!(ItemSlot::Helmet.to_item_type(), ItemType::Helmet);
    assert_eq!(ItemSlot::BodyArmor.to_item_type(), ItemType::BodyArmor);
    assert_eq!(ItemSlot::LegArmor.to_item_type(), ItemType::LegArmor);
    assert_eq!(ItemSlot::Boots.to_item_type(), ItemType::Boots);
    assert_eq!(ItemSlot::Ring1.to_item_type(), ItemType::Ring);
    assert_eq!(ItemSlot::Ring2.to_item_type(), ItemType::Ring);
    assert_eq!(ItemSlot::Amulet.to_item_type(), ItemType::Amulet);
    assert_eq!(ItemSlot::Artifact1.to_item_type(), ItemType::Artifact);
    assert_eq!(ItemSlot::Artifact2.to_item_type(), ItemType::Artifact);
    assert_eq!(ItemSlot::Artifact3.to_item_type(), ItemType::Artifact);
}

#[test]
fn every_equipment_slot_is_a_candidate_of_its_item_type() {
    for slot in all_slots() {
        if recorded(&slot) {
            assert!(slot.to_item_type().possible_slots().contains(&slot));
        }
    }
}

#[test]
fn first_unoccupied_candidate_slot_is_found() {
    let mut equipment = Equipment::default();
    assert_eq!(equipment.find_available_slot(&ItemType::Ring), Some(ItemSlot::Ring1));
    equipment.ring1_slot = "copper_ring".to_string();
    assert_eq!(equipment.find_available_slot(&ItemType::Ring), Some(ItemSlot::Ring2));
    equipment.ring2_slot = "iron_ring".to_string();
    assert_eq!(equipment.find_available_slot(&ItemType::Ring), None);
    equipment.ring1_slot = String::new();
    assert_eq!(equipment.find_available_slot(&ItemType::Ring), Some(ItemSlot::Ring1));

    assert_eq!(equipment.find_available_slot(&ItemType::Artifact), Some(ItemSlot::Artifact1));
    equipment.artifact1_slot = "a".to_string();
    equipment.artifact2_slot = "b".to_string();
    assert_eq!(equipment.find_available_slot(&ItemType::Artifact), Some(ItemSlot::Artifact3));
    equipment.artifact2_slot = String::new();
    assert_eq!(equipment.find_available_slot(&ItemType::Artifact), Some(ItemSlot::Artifact2));
    equipment.artifact2_slot = "b".to_string();
    equipment.artifact3_slot = "c".to_string();
    assert_eq!(equipment.find_available_slot(&ItemType::Artifact), None);
}

#[test]
fn single_slot_types_find_their_slot_only_when_it_is_free() {
    let free = Equipment::default();
    let full = full_equipment();
    let cases = [
        (ItemType::Helmet, ItemSlot::Helmet),
        (ItemType::Weapon, ItemSlot::Weapon),
        (ItemType::Shield, ItemSlot::Shield),
        (ItemType::BodyArmor, ItemSlot::BodyArmor),
        (ItemType::LegArmor, ItemSlot::LegArmor),
        (ItemType::Boots, ItemSlot::Boots),
        (ItemType::Amulet, ItemSlot::Amulet),
    ];
    for (item_type, slot) in cases {
        assert_eq!(free.find_available_slot(&item_type), Some(slot));
        assert_eq!(full.find_available_slot(&item_type), None);
    }
}

#[test]
fn types_without_an_equipment_slot_find_none() {
    let free = Equipment::default();
    for item_type in [
        ItemType::Consumable,
        ItemType::Food,
        ItemType::Utility,
        ItemType::Resource,
        ItemType::Currency,
    ] {
        assert_eq!(free.find_available_slot(&item_type), None);
    }
}

#[test]
fn skills_are_read_whatever_the_case() {
    assert_eq!(Skill::from_str("fishing"), Ok(Skill::Fishing));
    assert_eq!(Skill::from_str("Cooking"), Ok(Skill::Cooking));
    assert_eq!(Skill::from_str("GEARCRAFTING"), Ok(Skill::Gearcrafting));
    assert_eq!(Skill::from_str("mInInG"), Ok(Skill::Mining));
    assert_eq!(Skill::from_str("jewelrycrafting"), Ok(Skill::Jewelrycrafting));
    assert_eq!(Skill::from_str("weaponcrafting"), Ok(Skill::Weaponcrafting));
    assert_eq!(Skill::from_str("WoodCutting"), Ok(Skill::Woodcutting));
    assert_eq!(Skill::from_str("alchemy"), Ok(Skill::Alchemy));
    assert_eq!(Skill::from_str("fighting"), Ok(Skill::Fighting));
    assert_eq!("Fishing".parse::<Skill>(), Ok(Skill::Fishing));
}

#[test]
fn unknown_skills_are_rejected_as_written() {
    assert_eq!(Skill::from_str("Smithing"), Err("Unknown skill: Smithing".to_string()));
    assert_eq!(Skill::from_str(""), Err("Unknown skill: ".to_string()));
    assert_eq!(Skill::from_str(" fishing"), Err("Unknown skill:  fishing".to_string()));
}

#[test]
fn lowercase_names_must_match_exactly() {
    assert_eq!(Skill::from_lowercase("mining"), Some(Skill::Mining));
    assert_eq!(Skill::from_lowercase("Mining"), None);
    assert_eq!(Skill::from_lowercase("minin"), None);
}

#[test]
fn skill_names_read_back_as_the_skill() {
    let skills = [
        (Skill::Fishing, "fishing"),
        (Skill::Cooking, "cooking"),
        (Skill::Gearcrafting, "gearcrafting"),
        (Skill::Mining, "mining"),
        (Skill::Jewelrycrafting, "jewelrycrafting"),
        (Skill::Weaponcrafting, "weaponcrafting"),
        (Skill::Woodcutting, "woodcutting"),
        (Skill::Alchemy, "alchemy"),
        (Skill::Fighting, "fighting"),
    ];
    for (skill, name) in skills {
        assert_eq!(skill.to_string(), name);
        assert_eq!(Skill::from_str(&skill.to_string()), Ok(skill));
    }
}

#[test]
fn gathering_skills() {
    assert!(Skill::Mining.is_gathering());
    assert!(Skill::Woodcutting.is_gathering());
    assert!(Skill::Fishing.is_gathering());
    assert!(Skill::Alchemy.is_gathering());
    assert!(!Skill::Cooking.is_gathering());
    assert!(!Skill::Gearcrafting.is_gathering());
    assert!(!Skill::Jewelrycrafting.is_gathering());
    assert!(!Skill::Weaponcrafting.is_gathering());
    assert!(!Skill::Fighting.is_gathering());
}

#[test]
fn item_effects_are_told_apart_by_name_alone() {
    let small = ItemEffect { name: "heal".to_string(), value: 10 };
    let large = ItemEffect { name: "heal".to_string(), value: 250 };
    let other = ItemEffect { name: "boost_hp".to_string(), value: 10 };
    assert!(small == large);
    assert!(small != other);
    assert_eq!(hash_of(&small), hash_of(&large));
    let mut name_only = DefaultHasher::new();
    "heal".to_string().hash(&mut name_only);
    assert_eq!(hash_of(&small), name_only.finish());
}
