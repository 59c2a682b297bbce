use volo::dice::Roller;
use volo::models::{
    proficiency_bonus, Abilities, Ability, Character, Class, ClassDetails, HitPoints, Inventory,
    Proficiency, Race, SavingThrow, Skill, SkillProficiencies, SkillType, Skills,
};

#[test]
fn test_character_creation() {
    let character = Character {
        id: 1,
        name: String::from("Test Character"),
        race: Race::Human,
        class: ClassDetails {
            name: String::from("Fighter"),
            hit_dice: 10,
            saving_throws: vec![SavingThrow::Strength, SavingThrow::Constitution],
        },
        level: 1,
        abilities: Abilities {
            strength: Ability { value: 10 },
            dexterity: Ability { value: 10 },
            constitution: Ability { value: 10 },
            intelligence: Ability { value: 10 },
            wisdom: Ability { value: 10 },
            charisma: Ability { value: 10 },
        },
        skills: Skills {
            acrobatics: Skill {
                kind: SkillType::Acrobatics,
                value: 0,
            },
            animal_handling: Skill {
                kind: SkillType::AnimalHandling,
                value: 0,
            },
            arcana: Skill {
                kind: SkillType::Arcana,
                value: 0,
            },
            athletics: Skill {
                kind: SkillType::Athletics,
                value: 0,
            },
            deception: Skill {
                kind: SkillType::Deception,
                value: 0,
            },
            history: Skill {
                kind: SkillType::History,
                value: 0,
            },
            insight: Skill {
                kind: SkillType::Insight,
                value: 0,
            },
            intimidation: Skill {
                kind: SkillType::Intimidation,
                value: 0,
            },
            investigation: Skill {
                kind: SkillType::Investigation,
                value: 0,
            },
            medicine: Skill {
                kind: SkillType::Medicine,
                value: 0,
            },
            nature: Skill {
                kind: SkillType::Nature,
                value: 0,
            },
            perception: Skill {
                kind: SkillType::Perception,
                value: 0,
            },
            performance: Skill {
                kind: SkillType::Performance,
                value: 0,
            },
            persuasion: Skill {
                kind: SkillType::Persuasion,
                value: 0,
            },
            religion: Skill {
                kind: SkillType::Religion,
                value: 0,
            },
            sleight_of_hand: Skill {
                kind: SkillType::SleightOfHand,
                value: 0,
            },
            stealth: Skill {
                kind: SkillType::Stealth,
                value: 0,
            },
            survival: Skill {
                kind: SkillType::Survival,
                value: 0,
            },
        },
        proficiencies: SkillProficiencies {
            acrobatics: Proficiency::NotProficient,
            animal_handling: Proficiency::NotProficient,
            arcana: Proficiency::NotProficient,
            athletics: Proficiency::NotProficient,
            deception: Proficiency::NotProficient,
            history: Proficiency::NotProficient,
            insight: Proficiency::NotProficient,
            intimidation: Proficiency::NotProficient,
            investigation: Proficiency::NotProficient,
            medicine: Proficiency::NotProficient,
            nature: Proficiency::NotProficient,
            perception: Proficiency::NotProficient,
            performance: Proficiency::NotProficient,
            persuasion: Proficiency::NotProficient,
            religion: Proficiency::NotProficient,
            sleight_of_hand: Proficiency::NotProficient,
            stealth: Proficiency::NotProficient,
            survival: Proficiency::NotProficient,
        },
        inventory: Inventory { items: vec![] },
        hit_points: HitPoints {
            current: 10,
            max: 10,
            temporary: 0,
        },
        armor_class: 10,
        active_effects: vec![],
    };

    assert_eq!(character.name, "Test Character");
    assert_eq!(character.race, Race::Human);
    assert_eq!(
        character.class,
        ClassDetails {
            name: String::from("Fighter"),
            hit_dice: 10,
            saving_throws: vec![SavingThrow::Strength, SavingThrow::Constitution],
        }
    );
    assert_eq!(character.level, 1);
    assert_eq!(character.abilities.strength, Ability { value: 10 });
    assert_eq!(
        character.skills.acrobatics,
        Skill {
            kind: SkillType::Acrobatics,
            value: 0
        }
    );
    assert_eq!(
        character.proficiencies.acrobatics,
        Proficiency::NotProficient
    );
    assert_eq!(
        character.hit_points,
        HitPoints {
            current: 10,
            max: 10,
            temporary: 0,
        }
    );
    assert_eq!(character.armor_class, 10);
}

#[test]
fn test_character_saving_throw() {
    let character = Character {
        id: 1,
        name: String::from("Test Character"),
        race: Race::Human,
        class: ClassDetails {
            name: String::from("Fighter"),
            hit_dice: 10,
            saving_throws: vec![SavingThrow::Strength, SavingThrow::Constitution],
        },
        level: 1,
        abilities: Abilities {
            strength: Ability { value: 10 },
            dexterity: Ability { value: 12 },
            constitution: Ability { value: 14 },
            intelligence: Ability { value: 16 },
            wisdom: Ability { value: 18 },
            charisma: Ability { value: 20 },
        },
        skills: Skills {
            acrobatics: Skill {
                kind: SkillType::Acrobatics,
                value: 0,
            },
            animal_handling: Skill {
                kind: SkillType::AnimalHandling,
                value: 0,
            },
            arcana: Skill {
                kind: SkillType::Arcana,
                value: 0,
            },
            athletics: Skill {
                kind: SkillType::Athletics,
                value: 0,
            },
            deception: Skill {
                kind: SkillType::Deception,
                value: 0,
            },
            history: Skill {
                kind: SkillType::History,
                value: 0,
            },
            insight: Skill {
                kind: SkillType::Insight,
                value: 0,
            },
            intimidation: Skill {
                kind: SkillType::Intimidation,
                value: 0,
            },
            investigation: Skill {
                kind: SkillType::Investigation,
                value: 0,
            },
            medicine: Skill {
                kind: SkillType::Medicine,
                value: 0,
            },
            nature: Skill {
                kind: SkillType::Nature,
                value: 0,
            },
            perception: Skill {
                kind: SkillType::Perception,
                value: 0,
            },
            performance: Skill {
                kind: SkillType::Performance,
                value: 0,
            },
            persuasion: Skill {
                kind: SkillType::Persuasion,
                value: 0,
            },
            religion: Skill {
                kind: SkillType::Religion,
                value: 0,
            },
            sleight_of_hand: Skill {
                kind: SkillType::SleightOfHand,
                value: 0,
            },
            stealth: Skill {
                kind: SkillType::Stealth,
                value: 0,
            },
            survival: Skill {
                kind: SkillType::Survival,
                value: 0,
            },
        },
        proficiencies: SkillProficiencies {
            acrobatics: Proficiency::NotProficient,
            animal_handling: Proficiency::NotProficient,
            arcana: Proficiency::NotProficient,
            athletics: Proficiency::NotProficient,
            deception: Proficiency::NotProficient,
            history: Proficiency::NotProficient,
            insight: Proficiency::NotProficient,
            intimidation: Proficiency::NotProficient,
            investigation: Proficiency::NotProficient,
            medicine: Proficiency::NotProficient,
            nature: Proficiency::NotProficient,
            perception: Proficiency::NotProficient,
            performance: Proficiency::NotProficient,
            persuasion: Proficiency::NotProficient,
            religion: Proficiency::NotProficient,
            sleight_of_hand: Proficiency::NotProficient,
            stealth: Proficiency::NotProficient,
            survival: Proficiency::NotProficient,
        },
        inventory: Inventory { items: vec![] },
        hit_points: HitPoints {
            current: 10,
            max: 10,
            temporary: 10,
        },
        armor_class: 10,
        active_effects: vec![],
    };

    assert_eq!(character.saving_throw(SavingThrow::Strength), 1);
    assert_eq!(character.saving_throw(SavingThrow::Dexterity), 1);
    assert_eq!(character.saving_throw(SavingThrow::Constitution), 3);
    assert_eq!(character.saving_throw(SavingThrow::Intelligence), 3);
    assert_eq!(character.saving_throw(SavingThrow::Wisdom), 4);
    assert_eq!(character.saving_throw(SavingThrow::Charisma), 5);
}

fn sample_character(level: u32) -> Character {
    let mut abilities = Abilities {
        strength: Ability { value: 10 },
        dexterity: Ability { value: 10 },
        constitution: Ability { value: 10 },
        intelligence: Ability { value: 10 },
        wisdom: Ability { value: 10 },
        charisma: Ability { value: 10 },
    };
    abilities.set(SavingThrow::Dexterity, 14);
    let mut skills = Skills::zeroed();
    skills.set(SkillType::Stealth, 3);
    let mut proficiencies = SkillProficiencies::none();
    proficiencies.set(SkillType::Stealth, Proficiency::Expertise);
    proficiencies.set(SkillType::Arcana, Proficiency::HalfProficient);
    Character::new(
        7,
        String::from("Sample"),
        Race::Elf,
        ClassDetails::for_class(Class::Rogue).unwrap(),
        level,
        abilities,
        skills,
        proficiencies,
        12,
        13,
    )
}

#[test]
fn ability_modifier_rounds_down() {
    assert_eq!(Ability { value: 10 }.get_modifier(), 0);
    assert_eq!(Ability { value: 12 }.get_modifier(), 1);
    assert_eq!(Ability { value: 14 }.get_modifier(), 2);
    assert_eq!(Ability { value: 8 }.get_modifier(), -1);
    assert_eq!(Ability { value: 9 }.get_modifier(), -1);
    assert_eq!(Ability { value: 11 }.get_modifier(), 0);
    assert_eq!(Ability { value: 1 }.get_modifier(), -5);
    assert_eq!(Ability { value: 0 }.get_modifier(), -5);
    assert_eq!(Ability { value: u32::MAX }.get_modifier(), 2147483642);
}

#[test]
fn proficiency_bonus_by_tier() {
    assert_eq!(proficiency_bonus(Proficiency::NotProficient, 5), 0);
    assert_eq!(proficiency_bonus(Proficiency::Proficient, 5), 5);
    assert_eq!(proficiency_bonus(Proficiency::Expertise, 5), 10);
    assert_eq!(proficiency_bonus(Proficiency::HalfProficient, 5), 2);
    assert_eq!(proficiency_bonus(Proficiency::Expertise, u32::MAX), 2 * u32::MAX as u64);
}

#[test]
fn ability_check_is_d20_plus_modifier() {
    let character = sample_character(3);
    let mut roller = Roller::seeded(11);
    for _ in 0..200 {
        let r = character.ability_check(Ability { value: 14 }, &mut roller);
        assert!((3..=22).contains(&r));
        let low = character.ability_check(Ability { value: 8 }, &mut roller);
        assert!((0..=19).contains(&low));
    }
}

#[test]
fn skill_check_adds_value_and_proficiency() {
    let character = sample_character(3);
    let mut roller = Roller::seeded(5);
    for _ in 0..200 {
        // value 3, expertise at level 3 adds 6
        let stealth = character.skill_check(Skill { kind: SkillType::Stealth, value: 3 }, &mut roller);
        assert!((10..=29).contains(&stealth));
        // half proficiency at level 3 adds 1
        let arcana = character.skill_check(Skill { kind: SkillType::Arcana, value: 0 }, &mut roller);
        assert!((2..=21).contains(&arcana));
        let history = character.skill_check(Skill { kind: SkillType::History, value: 2 }, &mut roller);
        assert!((3..=22).contains(&history));
    }
}

#[test]
fn saving_throw_adds_level_for_class_saves() {
    let character = sample_character(4);
    // rogue saves: dexterity and intelligence
    assert_eq!(character.saving_throw(SavingThrow::Dexterity), 6);
    assert_eq!(character.saving_throw(SavingThrow::Intelligence), 4);
    assert_eq!(character.saving_throw(SavingThrow::Strength), 0);
}

#[test]
fn new_character_starts_at_full_hit_points() {
    let character = sample_character(2);
    assert_eq!(character.id, 7);
    assert_eq!(character.hit_points, HitPoints { current: 12, max: 12, temporary: 0 });
    assert_eq!(character.armor_class, 13);
    assert_eq!(character.abilities.dexterity, Ability { value: 14 });
    assert_eq!(character.abilities.strength, Ability { value: 10 });
    assert_eq!(character.skills.stealth, Skill { kind: SkillType::Stealth, value: 3 });
    assert_eq!(character.skills.survival, Skill { kind: SkillType::Survival, value: 0 });
    assert_eq!(character.proficiencies.stealth, Proficiency::Expertise);
    assert_eq!(character.proficiencies.nature, Proficiency::NotProficient);
    assert!(character.inventory.items.is_empty());
    assert!(character.active_effects.is_empty());
}

#[test]
fn names_parse_to_variants() {
    assert_eq!(Race::from_name("Human"), Some(Race::Human));
    assert_eq!(Race::from_name("HalfOrc"), Some(Race::HalfOrc));
    assert_eq!(Race::from_name("Halfling"), Some(Race::Halfling));
    assert_eq!(Race::from_name("human"), None);
    assert_eq!(Race::from_name(""), None);
    assert_eq!(Class::from_name("Wizard"), Some(Class::Wizard));
    assert_eq!(Class::from_name("Warlock"), Some(Class::Warlock));
    assert_eq!(Class::from_name("Knight"), None);
    assert_eq!(Class::Cleric.name(), "Cleric");
    assert_eq!(Proficiency::from_answer("y"), Some(Proficiency::Proficient));
    assert_eq!(Proficiency::from_answer("n"), Some(Proficiency::NotProficient));
    assert_eq!(Proficiency::from_answer("h"), Some(Proficiency::HalfProficient));
    assert_eq!(Proficiency::from_answer("e"), Some(Proficiency::Expertise));
    assert_eq!(Proficiency::from_answer("yes"), None);
}

#[test]
fn class_details_follow_the_table() {
    assert_eq!(
        ClassDetails::for_class(Class::Fighter),
        Some(ClassDetails {
            name: String::from("Fighter"),
            hit_dice: 10,
            saving_throws: vec![SavingThrow::Strength, SavingThrow::Constitution],
        })
    );
    assert_eq!(
        ClassDetails::for_class(Class::Wizard),
        Some(ClassDetails {
            name: String::from("Wizard"),
            hit_dice: 6,
            saving_throws: vec![SavingThrow::Intelligence, SavingThrow::Wisdom],
        })
    );
    assert_eq!(ClassDetails::for_class(Class::Cleric).unwrap().hit_dice, 8);
    assert_eq!(ClassDetails::for_class(Class::Bard), None);
}

#[test]
fn kinds_are_listed_with_names() {
    let kinds = SkillType::all();
    assert_eq!(kinds.len(), 18);
    assert_eq!(kinds[1], SkillType::AnimalHandling);
    assert_eq!(SkillType::SleightOfHand.name(), "sleight_of_hand");
    let abilities = SavingThrow::all();
    assert_eq!(abilities.len(), 6);
    assert_eq!(abilities[5].name(), "charisma");
}
