//! The character model: abilities, skills, proficiencies, hit points, and the
//! checks and saving throws derived from them.

use crate::dice::Roller;
use crate::effect::Effect;
use vstd::prelude::*;

verus! {

/// An ability score.
#[derive(Clone, Copy, Debug, PartialEq, Eq)]
pub struct Ability {
    pub value: u32,
}

/// The modifier that an ability score gives: `floor((value - 10) / 2)`.
pub open spec fn modifier_of(value: int) -> int {
    (value - 10) / 2
}

impl Ability {
    /// The modifier of this score, rounded down.
    pub fn get_modifier(&self) -> (r: i32)
        ensures
            r == modifier_of(self.value as int),
    {
        if self.value >= 10 {
            ((self.value - 10) / 2) as i32
        } else {
            -(((11 - self.value) / 2) as i32)
        }
    }
}

/// One of the six abilities; it also names the saving throw made with it.
#[derive(Clone, Copy, Debug, PartialEq, Eq, Structural)]
pub enum SavingThrow {
    Strength,
    Dexterity,
    Constitution,
    Intelligence,
    Wisdom,
    Charisma,
}

impl SavingThrow {
    /// The six abilities, in the order of a character sheet.
    pub open spec fn spec_all() -> Seq<SavingThrow> {
        seq![SavingThrow::Strength, SavingThrow::Dexterity, SavingThrow::Constitution, SavingThrow::Intelligence, SavingThrow::Wisdom, SavingThrow::Charisma]
    }

    /// The six abilities, in the order of a character sheet.
    pub fn all() -> (r: Vec<SavingThrow>)
        ensures
            r@ == Self::spec_all(),
    {
        vec![SavingThrow::Strength, SavingThrow::Dexterity, SavingThrow::Constitution, SavingThrow::Intelligence, SavingThrow::Wisdom, SavingThrow::Charisma]
    }

    pub open spec fn spec_name(&self) -> Seq<char> {
        match *self {
            SavingThrow::Strength => "strength"@,
            SavingThrow::Dexterity => "dexterity"@,
            SavingThrow::Constitution => "constitution"@,
            SavingThrow::Intelligence => "intelligence"@,
            SavingThrow::Wisdom => "wisdom"@,
            SavingThrow::Charisma => "charisma"@,
        }
    }

    /// The ability's name in lower case.
    pub fn name(&self) -> (r: &'static str)
        ensures
            r@ == self.spec_name(),
    {
        match *self {
            SavingThrow::Strength => "strength",
            SavingThrow::Dexterity => "dexterity",
            SavingThrow::Constitution => "constitution",
            SavingThrow::Intelligence => "intelligence",
            SavingThrow::Wisdom => "wisdom",
            SavingThrow::Charisma => "charisma",
        }
    }
}

#[derive(Clone, Debug, PartialEq)]
pub struct Abilities {
    pub strength: Ability,
    pub dexterity: Ability,
    pub constitution: Ability,
    pub intelligence: Ability,
    pub wisdom: Ability,
    pub charisma: Ability,
}

impl Abilities {
    /// The score of the ability `which`.
    pub open spec fn spec_get(&self, which: SavingThrow) -> Ability {
        match which {
            SavingThrow::Strength => self.strength,
            SavingThrow::Dexterity => self.dexterity,
            SavingThrow::Constitution => self.constitution,
            SavingThrow::Intelligence => self.intelligence,
            SavingThrow::Wisdom => self.wisdom,
            SavingThrow::Charisma => self.charisma,
        }
    }

    /// The score of the ability `which`.
    pub fn get(&self, which: SavingThrow) -> (r: Ability)
        ensures
            r == self.spec_get(which),
    {
        match which {
            SavingThrow::Strength => self.strength,
            SavingThrow::Dexterity => self.dexterity,
            SavingThrow::Constitution => self.constitution,
            SavingThrow::Intelligence => self.intelligence,
            SavingThrow::Wisdom => self.wisdom,
            SavingThrow::Charisma => self.charisma,
        }
    }

    /// Sets the score of the ability `which`, leaving the others.
    pub fn set(&mut self, which: SavingThrow, value: u32)
        ensures
            final(self).spec_get(which) == (Ability { value }),
            forall|other: SavingThrow|
                other != which ==> #[trigger] final(self).spec_get(other) == old(self).spec_get(other),
    {
        match which {
            SavingThrow::Strength => self.strength = Ability { value },
            SavingThrow::Dexterity => self.dexterity = Ability { value },
            SavingThrow::Constitution => self.constitution = Ability { value },
            SavingThrow::Intelligence => self.intelligence = Ability { value },
            SavingThrow::Wisdom => self.wisdom = Ability { value },
            SavingThrow::Charisma => self.charisma = Ability { value },
        }
    }
}

#[derive(Clone, Copy, Debug, PartialEq, Eq, Structural)]
pub enum SkillType {
    Acrobatics,
    AnimalHandling,
    Arcana,
    Athletics,
    Deception,
    History,
    Insight,
    Intimidation,
    Investigation,
    Medicine,
    Nature,
    Perception,
    Performance,
    Persuasion,
    Religion,
    SleightOfHand,
    Stealth,
    Survival,
}

impl SkillType {
    /// The eighteen skills, in the order of a character sheet.
    pub open spec fn spec_all() -> Seq<SkillType> {
        seq![
            SkillType::Acrobatics,
            SkillType::AnimalHandling,
            SkillType::Arcana,
            SkillType::Athletics,
            SkillType::Deception,
            SkillType::History,
            SkillType::Insight,
            SkillType::Intimidation,
            SkillType::Investigation,
            SkillType::Medicine,
            SkillType::Nature,
            SkillType::Perception,
            SkillType::Performance,
            SkillType::Persuasion,
            SkillType::Religion,
            SkillType::SleightOfHand,
            SkillType::Stealth,
            SkillType::Survival,
        ]
    }

    /// The eighteen skills, in the order of a character sheet.
    pub fn all() -> (r: Vec<SkillType>)
        ensures
            r@ == Self::spec_all(),
    {
        vec![
            SkillType::Acrobatics,
            SkillType::AnimalHandling,
            SkillType::Arcana,
            SkillType::Athletics,
            SkillType::Deception,
            SkillType::History,
            SkillType::Insight,
            SkillType::Intimidation,
            SkillType::Investigation,
            SkillType::Medicine,
            SkillType::Nature,
            SkillType::Perception,
            SkillType::Performance,
            SkillType::Persuasion,
            SkillType::Religion,
            SkillType::SleightOfHand,
            SkillType::Stealth,
            SkillType::Survival,
        ]
    }

    pub open spec fn spec_name(&self) -> Seq<char> {
        match *self {
            SkillType::Acrobatics => "acrobatics"@,
            SkillType::AnimalHandling => "animal_handling"@,
            SkillType::Arcana => "arcana"@,
            SkillType::Athletics => "athletics"@,
            SkillType::Deception => "deception"@,
            SkillType::History => "history"@,
            SkillType::Insight => "insight"@,
            SkillType::Intimidation => "intimidation"@,
            SkillType::Investigation => "investigation"@,
            SkillType::Medicine => "medicine"@,
            SkillType::Nature => "nature"@,
            SkillType::Perception => "perception"@,
            SkillType::Performance => "performance"@,
            SkillType::Persuasion => "persuasion"@,
            SkillType::Religion => "religion"@,
            SkillType::SleightOfHand => "sleight_of_hand"@,
            SkillType::Stealth => "stealth"@,
            SkillType::Survival => "survival"@,
        }
    }

    /// The skill's name in lower snake case.
    pub fn name(&self) -> (r: &'static str)
        ensures
            r@ == self.spec_name(),
    {
        match *self {
            SkillType::Acrobatics => "acrobatics",
            SkillType::AnimalHandling => "animal_handling",
            SkillType::Arcana => "arcana",
            SkillType::Athletics => "athletics",
            SkillType::Deception => "deception",
            SkillType::History => "history",
            SkillType::Insight => "insight",
            SkillType::Intimidation => "intimidation",
            SkillType::Investigation => "investigation",
            SkillType::Medicine => "medicine",
            SkillType::Nature => "nature",
            SkillType::Perception => "perception",
            SkillType::Performance => "performance",
            SkillType::Persuasion => "persuasion",
            SkillType::Religion => "religion",
            SkillType::SleightOfHand => "sleight_of_hand",
            SkillType::Stealth => "stealth",
            SkillType::Survival => "survival",
        }
    }
}

#[derive(Clone, Copy, Debug, PartialEq, Eq)]
pub struct Skill {
    pub kind: SkillType,
    pub value: u32,
}

#[derive(Clone, Debug, PartialEq)]
pub struct Skills {
    pub acrobatics: Skill,
    pub animal_handling: Skill,
    pub arcana: Skill,
    pub athletics: Skill,
    pub deception: Skill,
    pub history: Skill,
    pub insight: Skill,
    pub intimidation: Skill,
    pub investigation: Skill,
    pub medicine: Skill,
    pub nature: Skill,
    pub perception: Skill,
    pub performance: Skill,
    pub persuasion: Skill,
    pub religion: Skill,
    pub sleight_of_hand: Skill,
    pub stealth: Skill,
    pub survival: Skill,
}

impl Skills {
    /// The entry of the skill `kind`.
    pub open spec fn spec_get(&self, kind: SkillType) -> Skill {
        match kind {
            SkillType::Acrobatics => self.acrobatics,
            SkillType::AnimalHandling => self.animal_handling,
            SkillType::Arcana => self.arcana,
            SkillType::Athletics => self.athletics,
            SkillType::Deception => self.deception,
            SkillType::History => self.history,
            SkillType::Insight => self.insight,
            SkillType::Intimidation => self.intimidation,
            SkillType::Investigation => self.investigation,
            SkillType::Medicine => self.medicine,
            SkillType::Nature => self.nature,
            SkillType::Perception => self.perception,
            SkillType::Performance => self.performance,
            SkillType::Persuasion => self.persuasion,
            SkillType::Religion => self.religion,
            SkillType::SleightOfHand => self.sleight_of_hand,
            SkillType::Stealth => self.stealth,
            SkillType::Survival => self.survival,
        }
    }

    /// Every entry is filed under its own kind.
    pub open spec fn wf(&self) -> bool {
        forall|kind: SkillType| #[trigger] self.spec_get(kind).kind == kind
    }

    /// Every skill at value zero.
    pub fn zeroed() -> (r: Skills)
        ensures
            r.wf(),
            forall|kind: SkillType| #[trigger] r.spec_get(kind).value == 0,
    {
        Skills {
            acrobatics: Skill { kind: SkillType::Acrobatics, value: 0 },
            animal_handling: Skill { kind: SkillType::AnimalHandling, value: 0 },
            arcana: Skill { kind: SkillType::Arcana, value: 0 },
            athletics: Skill { kind: SkillType::Athletics, value: 0 },
            deception: Skill { kind: SkillType::Deception, value: 0 },
            history: Skill { kind: SkillType::History, value: 0 },
            insight: Skill { kind: SkillType::Insight, value: 0 },
            intimidation: Skill { kind: SkillType::Intimidation, value: 0 },
            investigation: Skill { kind: SkillType::Investigation, value: 0 },
            medicine: Skill { kind: SkillType::Medicine, value: 0 },
            nature: Skill { kind: SkillType::Nature, value: 0 },
            perception: Skill { kind: SkillType::Perception, value: 0 },
            performance: Skill { kind: SkillType::Performance, value: 0 },
            persuasion: Skill { kind: SkillType::Persuasion, value: 0 },
            religion: Skill { kind: SkillType::Religion, value: 0 },
            sleight_of_hand: Skill { kind: SkillType::SleightOfHand, value: 0 },
            stealth: Skill { kind: SkillType::Stealth, value: 0 },
            survival: Skill { kind: SkillType::Survival, value: 0 },
        }
    }

    /// The entry of the skill `kind`.
    pub fn get(&self, kind: SkillType) -> (r: Skill)
        ensures
            r == self.spec_get(kind),
    {
        match kind {
            SkillType::Acrobatics => self.acrobatics,
            SkillType::AnimalHandling => self.animal_handling,
            SkillType::Arcana => self.arcana,
            SkillType::Athletics => self.athletics,
            SkillType::Deception => self.deception,
            SkillType::History => self.history,
            SkillType::Insight => self.insight,
            SkillType::Intimidation => self.intimidation,
            SkillType::Investigation => self.investigation,
            SkillType::Medicine => self.medicine,
            SkillType::Nature => self.nature,
            SkillType::Perception => self.perception,
            SkillType::Performance => self.performance,
            SkillType::Persuasion => self.persuasion,
            SkillType::Religion => self.religion,
            SkillType::SleightOfHand => self.sleight_of_hand,
            SkillType::Stealth => self.stealth,
            SkillType::Survival => self.survival,
        }
    }

    /// Sets the value of the skill `kind`, leaving the others.
    pub fn set(&mut self, kind: SkillType, value: u32)
        ensures
            final(self).spec_get(kind) == (Skill { kind, value }),
            forall|other: SkillType|
                other != kind ==> #[trigger] final(self).spec_get(other) == old(self).spec_get(other),
    {
        match kind {
            SkillType::Acrobatics => self.acrobatics = Skill { kind, value },
            SkillType::AnimalHandling => self.animal_handling = Skill { kind, value },
            SkillType::Arcana => self.arcana = Skill { kind, value },
            SkillType::Athletics => self.athletics = Skill { kind, value },
            SkillType::Deception => self.deception = Skill { kind, value },
            SkillType::History => self.history = Skill { kind, value },
            SkillType::Insight => self.insight = Skill { kind, value },
            SkillType::Intimidation => self.intimidation = Skill { kind, value },
            SkillType::Investigation => self.investigation = Skill { kind, value },
            SkillType::Medicine => self.medicine = Skill { kind, value },
            SkillType::Nature => self.nature = Skill { kind, value },
            SkillType::Perception => self.perception = Skill { kind, value },
            SkillType::Performance => self.performance = Skill { kind, value },
            SkillType::Persuasion => self.persuasion = Skill { kind, value },
            SkillType::Religion => self.religion = Skill { kind, value },
            SkillType::SleightOfHand => self.sleight_of_hand = Skill { kind, value },
            SkillType::Stealth => self.stealth = Skill { kind, value },
            SkillType::Survival => self.survival = Skill { kind, value },
        }
    }
}

#[derive(Clone, Copy, Debug, PartialEq, Eq, Structural)]
pub enum Proficiency {
    NotProficient,
    Expertise,
    Proficient,
    HalfProficient,
}

/// The bonus that a proficiency tier adds to a check at a given level.
pub open spec fn proficiency_bonus_of(proficiency: Proficiency, level: int) -> int {
    match proficiency {
        Proficiency::NotProficient => 0,
        Proficiency::Proficient => level,
        Proficiency::Expertise => 2 * level,
        Proficiency::HalfProficient => level / 2,
    }
}

/// The bonus that `proficiency` adds to a check at `level`: nothing, the
/// level, twice the level, or half the level rounded down.
pub fn proficiency_bonus(proficiency: Proficiency, level: u32) -> (r: u64)
    ensures
        r == proficiency_bonus_of(proficiency, level as int),
{
    match proficiency {
        Proficiency::NotProficient => 0,
        Proficiency::Proficient => level as u64,
        Proficiency::Expertise => 2 * (level as u64),
        Proficiency::HalfProficient => (level / 2) as u64,
    }
}

#[derive(Clone, Debug, PartialEq)]
pub struct SkillProficiencies {
    pub acrobatics: Proficiency,
    pub animal_handling: Proficiency,
    pub arcana: Proficiency,
    pub athletics: Proficiency,
    pub deception: Proficiency,
    pub history: Proficiency,
    pub insight: Proficiency,
    pub intimidation: Proficiency,
    pub investigation: Proficiency,
    pub medicine: Proficiency,
    pub nature: Proficiency,
    pub perception: Proficiency,
    pub performance: Proficiency,
    pub persuasion: Proficiency,
    pub religion: Proficiency,
    pub sleight_of_hand: Proficiency,
    pub stealth: Proficiency,
    pub survival: Proficiency,
}

impl SkillProficiencies {
    /// The proficiency tier in the skill `kind`.
    pub open spec fn spec_get(&self, kind: SkillType) -> Proficiency {
        match kind {
            SkillType::Acrobatics => self.acrobatics,
            SkillType::AnimalHandling => self.animal_handling,
            SkillType::Arcana => self.arcana,
            SkillType::Athletics => self.athletics,
            SkillType::Deception => self.deception,
            SkillType::History => self.history,
            SkillType::Insight => self.insight,
            SkillType::Intimidation => self.intimidation,
            SkillType::Investigation => self.investigation,
            SkillType::Medicine => self.medicine,
            SkillType::Nature => self.nature,
            SkillType::Perception => self.perception,
            SkillType::Performance => self.performance,
            SkillType::Persuasion => self.persuasion,
            SkillType::Religion => self.religion,
            SkillType::SleightOfHand => self.sleight_of_hand,
            SkillType::Stealth => self.stealth,
            SkillType::Survival => self.survival,
        }
    }

    /// No proficiency in any skill.
    pub fn none() -> (r: SkillProficiencies)
        ensures
            forall|kind: SkillType| #[trigger] r.spec_get(kind) == Proficiency::NotProficient,
    {
        SkillProficiencies {
            acrobatics: Proficiency::NotProficient,
            animal_handling: Proficiency::NotProficient,
            arcana: Proficiency::NotProficient,
            athletics: Proficiency::NotProficient,
            deception: Proficiency::NotProficient,
            history: Proficiency::NotProficient,
            insight: Proficiency::NotProficient,
            intimidation: Proficiency::NotProficient,
            investigation: Proficiency::NotProficient,
            medicine: Proficiency::NotProficient,
            nature: Proficiency::NotProficient,
            perception: Proficiency::NotProficient,
            performance: Proficiency::NotProficient,
            persuasion: Proficiency::NotProficient,
            religion: Proficiency::NotProficient,
            sleight_of_hand: Proficiency::NotProficient,
            stealth: Proficiency::NotProficient,
            survival: Proficiency::NotProficient,
        }
    }

    /// The proficiency tier in the skill `kind`.
    pub fn get(&self, kind: SkillType) -> (r: Proficiency)
        ensures
            r == self.spec_get(kind),
    {
        match kind {
            SkillType::Acrobatics => self.acrobatics,
            SkillType::AnimalHandling => self.animal_handling,
            SkillType::Arcana => self.arcana,
            SkillType::Athletics => self.athletics,
            SkillType::Deception => self.deception,
            SkillType::History => self.history,
            SkillType::Insight => self.insight,
            SkillType::Intimidation => self.intimidation,
            SkillType::Investigation => self.investigation,
            SkillType::Medicine => self.medicine,
            SkillType::Nature => self.nature,
            SkillType::Perception => self.perception,
            SkillType::Performance => self.performance,
            SkillType::Persuasion => self.persuasion,
            SkillType::Religion => self.religion,
            SkillType::SleightOfHand => self.sleight_of_hand,
            SkillType::Stealth => self.stealth,
            SkillType::Survival => self.survival,
        }
    }

    /// Sets the tier in the skill `kind`, leaving the others.
    pub fn set(&mut self, kind: SkillType, proficiency: Proficiency)
        ensures
            final(self).spec_get(kind) == proficiency,
            forall|other: SkillType|
                other != kind ==> #[trigger] final(self).spec_get(other) == old(self).spec_get(other),
    {
        match kind {
            SkillType::Acrobatics => self.acrobatics = proficiency,
            SkillType::AnimalHandling => self.animal_handling = proficiency,
            SkillType::Arcana => self.arcana = proficiency,
            SkillType::Athletics => self.athletics = proficiency,
            SkillType::Deception => self.deception = proficiency,
            SkillType::History => self.history = proficiency,
            SkillType::Insight => self.insight = proficiency,
            SkillType::Intimidation => self.intimidation = proficiency,
            SkillType::Investigation => self.investigation = proficiency,
            SkillType::Medicine => self.medicine = proficiency,
            SkillType::Nature => self.nature = proficiency,
            SkillType::Perception => self.perception = proficiency,
            SkillType::Performance => self.performance = proficiency,
            SkillType::Persuasion => self.persuasion = proficiency,
            SkillType::Religion => self.religion = proficiency,
            SkillType::SleightOfHand => self.sleight_of_hand = proficiency,
            SkillType::Stealth => self.stealth = proficiency,
            SkillType::Survival => self.survival = proficiency,
        }
    }
}

#[derive(Clone, Copy, Debug, PartialEq, Eq, Structural)]
pub enum Race {
    Human,
    Elf,
    Dwarf,
    Halfling,
    Gnome,
    HalfElf,
    HalfOrc,
    Tiefling,
}

#[derive(Clone, Copy, Debug, PartialEq, Eq, Structural)]
pub enum Class {
    Fighter,
    Wizard,
    Rogue,
    Cleric,
    Barbarian,
    Bard,
    Druid,
    Monk,
    Paladin,
    Ranger,
    Sorcerer,
    Warlock,
}

#[derive(Clone, Debug, PartialEq)]
pub struct ClassDetails {
    pub name: String,
    pub hit_dice: u32,
    pub saving_throws: Vec<SavingThrow>,
}

impl ClassDetails {
    /// Whether `saving_throw` is one of the class's saving throws.
    pub fn has_saving_throw(&self, saving_throw: SavingThrow) -> (r: bool)
        ensures
            r == self.saving_throws@.contains(saving_throw),
    {
        let mut i: usize = 0;
        while i < self.saving_throws.len()
            invariant
                i <= self.saving_throws.len(),
                forall|j: int| 0 <= j < i ==> self.saving_throws@[j] != saving_throw,
            decreases self.saving_throws.len() - i,
        {
            if self.saving_throws[i] == saving_throw {
                return true;
            }
            i = i + 1;
        }
        false
    }
}

#[derive(Clone, Copy, Debug, PartialEq, Eq)]
pub struct HitPoints {
    pub current: u32,
    pub max: u32,
    pub temporary: u32,
}

impl HitPoints {
    /// Current hit points never exceed the maximum.
    pub open spec fn wf(&self) -> bool {
        self.current <= self.max
    }
}

#[derive(Clone, Debug, PartialEq)]
pub struct Item {
    pub name: String,
    pub quantity: u32,
}

#[derive(Clone, Debug, PartialEq)]
pub struct Inventory {
    pub items: Vec<Item>,
}

/// A participant in combat.
#[derive(Clone, Debug, PartialEq)]
pub struct Character {
    pub id: u32,
    pub name: String,
    pub race: Race,
    pub class: ClassDetails,
    pub level: u32,
    pub abilities: Abilities,
    pub skills: Skills,
    pub proficiencies: SkillProficiencies,
    pub inventory: Inventory,
    pub hit_points: HitPoints,
    pub armor_class: u32,
    pub active_effects: Vec<Effect>,
}

/// The saving-throw bonus: the ability's modifier, plus the level where the
/// class lists that saving throw.
pub open spec fn saving_throw_of(c: Character, saving_throw: SavingThrow) -> int {
    modifier_of(c.abilities.spec_get(saving_throw).value as int) + if c.class.saving_throws@.contains(
        saving_throw,
    ) {
        c.level as int
    } else {
        0
    }
}

/// What a skill check adds to the d20: the skill's value and the bonus of
/// the character's proficiency tier in that skill.
pub open spec fn skill_bonus_of(c: Character, skill: Skill) -> int {
    skill.value as int + proficiency_bonus_of(c.proficiencies.spec_get(skill.kind), c.level as int)
}

impl Character {
    /// A d20 plus the ability's modifier.
    pub fn ability_check(&self, ability: Ability, roller: &mut Roller) -> (r: i64)
        ensures
            1 <= r - modifier_of(ability.value as int) <= 20,
    {
        let d20 = roller.face(20);
        d20 as i64 + ability.get_modifier() as i64
    }

    /// A d20 plus the skill's value plus the proficiency bonus of the
    /// character's tier in that skill at the character's level.
    pub fn skill_check(&self, skill: Skill, roller: &mut Roller) -> (r: i64)
        ensures
            1 <= r - skill_bonus_of(*self, skill) <= 20,
    {
        let proficiency = self.proficiencies.get(skill.kind);
        let bonus = proficiency_bonus(proficiency, self.level);
        let d20 = roller.face(20);
        d20 as i64 + skill.value as i64 + bonus as i64
    }

    /// The saving-throw bonus for `saving_throw`.
    pub fn saving_throw(&self, saving_throw: SavingThrow) -> (r: i64)
        ensures
            r == saving_throw_of(*self, saving_throw),
    {
        let modifier = self.abilities.get(saving_throw).get_modifier() as i64;
        if self.class.has_saving_throw(saving_throw) {
            modifier + self.level as i64
        } else {
            modifier
        }
    }
}

/// Whether two texts hold the same characters.
fn same_text(a: &str, b: &str) -> (r: bool)
    ensures
        r == (a@ == b@),
{
    a.to_owned() == b.to_owned()
}

/// The race whose name is `name`, written as the variant is.
pub open spec fn race_named(name: Seq<char>) -> Option<Race> {
    if name == "Human"@ {
        Some(Race::Human)
    } else if name == "Elf"@ {
        Some(Race::Elf)
    } else if name == "Dwarf"@ {
        Some(Race::Dwarf)
    } else if name == "Halfling"@ {
        Some(Race::Halfling)
    } else if name == "Gnome"@ {
        Some(Race::Gnome)
    } else if name == "HalfElf"@ {
        Some(Race::HalfElf)
    } else if name == "HalfOrc"@ {
        Some(Race::HalfOrc)
    } else if name == "Tiefling"@ {
        Some(Race::Tiefling)
    } else {
        None
    }
}

impl Race {
    /// The race whose name is `name`, written as the variant is.
    pub fn from_name(name: &str) -> (r: Option<Race>)
        ensures
            r == race_named(name@),
    {
        if same_text(name, "Human") {
            Some(Race::Human)
        } else if same_text(name, "Elf") {
            Some(Race::Elf)
        } else if same_text(name, "Dwarf") {
            Some(Race::Dwarf)
        } else if same_text(name, "Halfling") {
            Some(Race::Halfling)
        } else if same_text(name, "Gnome") {
            Some(Race::Gnome)
        } else if same_text(name, "HalfElf") {
            Some(Race::HalfElf)
        } else if same_text(name, "HalfOrc") {
            Some(Race::HalfOrc)
        } else if same_text(name, "Tiefling") {
            Some(Race::Tiefling)
        } else {
            None
        }
    }
}

/// The class whose name is `name`, written as the variant is.
pub open spec fn class_named(name: Seq<char>) -> Option<Class> {
    if name == "Fighter"@ {
        Some(Class::Fighter)
    } else if name == "Wizard"@ {
        Some(Class::Wizard)
    } else if name == "Rogue"@ {
        Some(Class::Rogue)
    } else if name == "Cleric"@ {
        Some(Class::Cleric)
    } else if name == "Barbarian"@ {
        Some(Class::Barbarian)
    } else if name == "Bard"@ {
        Some(Class::Bard)
    } else if name == "Druid"@ {
        Some(Class::Druid)
    } else if name == "Monk"@ {
        Some(Class::Monk)
    } else if name == "Paladin"@ {
        Some(Class::Paladin)
    } else if name == "Ranger"@ {
        Some(Class::Ranger)
    } else if name == "Sorcerer"@ {
        Some(Class::Sorcerer)
    } else if name == "Warlock"@ {
        Some(Class::Warlock)
    } else {
        None
    }
}

impl Class {
    /// The class whose name is `name`, written as the variant is.
    pub fn from_name(name: &str) -> (r: Option<Class>)
        ensures
            r == class_named(name@),
    {
        if same_text(name, "Fighter") {
            Some(Class::Fighter)
        } else if same_text(name, "Wizard") {
            Some(Class::Wizard)
        } else if same_text(name, "Rogue") {
            Some(Class::Rogue)
        } else if same_text(name, "Cleric") {
            Some(Class::Cleric)
        } else if same_text(name, "Barbarian") {
            Some(Class::Barbarian)
        } else if same_text(name, "Bard") {
            Some(Class::Bard)
        } else if same_text(name, "Druid") {
            Some(Class::Druid)
        } else if same_text(name, "Monk") {
            Some(Class::Monk)
        } else if same_text(name, "Paladin") {
            Some(Class::Paladin)
        } else if same_text(name, "Ranger") {
            Some(Class::Ranger)
        } else if same_text(name, "Sorcerer") {
            Some(Class::Sorcerer)
        } else if same_text(name, "Warlock") {
            Some(Class::Warlock)
        } else {
            None
        }
    }

    pub open spec fn spec_name(&self) -> Seq<char> {
        match *self {
            Class::Fighter => "Fighter"@,
            Class::Wizard => "Wizard"@,
            Class::Rogue => "Rogue"@,
            Class::Cleric => "Cleric"@,
            Class::Barbarian => "Barbarian"@,
            Class::Bard => "Bard"@,
            Class::Druid => "Druid"@,
            Class::Monk => "Monk"@,
            Class::Paladin => "Paladin"@,
            Class::Ranger => "Ranger"@,
            Class::Sorcerer => "Sorcerer"@,
            Class::Warlock => "Warlock"@,
        }
    }

    /// The class's name, written as the variant is.
    pub fn name(&self) -> (r: &'static str)
        ensures
            r@ == self.spec_name(),
    {
        match *self {
            Class::Fighter => "Fighter",
            Class::Wizard => "Wizard",
            Class::Rogue => "Rogue",
            Class::Cleric => "Cleric",
            Class::Barbarian => "Barbarian",
            Class::Bard => "Bard",
            Class::Druid => "Druid",
            Class::Monk => "Monk",
            Class::Paladin => "Paladin",
            Class::Ranger => "Ranger",
            Class::Sorcerer => "Sorcerer",
            Class::Warlock => "Warlock",
        }
    }
}

/// The hit die and the saving throws of the classes whose details are
/// tabulated.
pub open spec fn class_table(class: Class) -> Option<(u32, Seq<SavingThrow>)> {
    match class {
        Class::Fighter => Some((10, seq![SavingThrow::Strength, SavingThrow::Constitution])),
        Class::Wizard => Some((6, seq![SavingThrow::Intelligence, SavingThrow::Wisdom])),
        Class::Rogue => Some((8, seq![SavingThrow::Dexterity, SavingThrow::Intelligence])),
        Class::Cleric => Some((8, seq![SavingThrow::Wisdom, SavingThrow::Charisma])),
        _ => None,
    }
}

impl ClassDetails {
    /// The details of `class`, named after it; `None` where the class is not
    /// tabulated.
    pub fn for_class(class: Class) -> (r: Option<ClassDetails>)
        ensures
            match class_table(class) {
                Some((hit_dice, saving_throws)) => r matches Some(d) && d.name@ == class.spec_name()
                    && d.hit_dice == hit_dice && d.saving_throws@ == saving_throws,
                None => r is None,
            },
    {
        let (hit_dice, saving_throws) = match class {
            Class::Fighter => (10, vec![SavingThrow::Strength, SavingThrow::Constitution]),
            Class::Wizard => (6, vec![SavingThrow::Intelligence, SavingThrow::Wisdom]),
            Class::Rogue => (8, vec![SavingThrow::Dexterity, SavingThrow::Intelligence]),
            Class::Cleric => (8, vec![SavingThrow::Wisdom, SavingThrow::Charisma]),
            _ => return None,
        };
        Some(ClassDetails { name: class.name().to_owned(), hit_dice, saving_throws })
    }
}

/// The tier that an answer gives: `y` proficient, `n` not proficient, `h`
/// half proficient, `e` expertise.
pub open spec fn proficiency_answered(answer: Seq<char>) -> Option<Proficiency> {
    if answer == "y"@ {
        Some(Proficiency::Proficient)
    } else if answer == "n"@ {
        Some(Proficiency::NotProficient)
    } else if answer == "h"@ {
        Some(Proficiency::HalfProficient)
    } else if answer == "e"@ {
        Some(Proficiency::Expertise)
    } else {
        None
    }
}

impl Proficiency {
    /// The tier that an answer gives: `y` proficient, `n` not proficient, `h`
    /// half proficient, `e` expertise.
    pub fn from_answer(answer: &str) -> (r: Option<Proficiency>)
        ensures
            r == proficiency_answered(answer@),
    {
        if same_text(answer, "y") {
            Some(Proficiency::Proficient)
        } else if same_text(answer, "n") {
            Some(Proficiency::NotProficient)
        } else if same_text(answer, "h") {
            Some(Proficiency::HalfProficient)
        } else if same_text(answer, "e") {
            Some(Proficiency::Expertise)
        } else {
            None
        }
    }
}

impl Character {
    /// A new character at full hit points, with no temporary hit points, an
    /// empty inventory and no active effects.
    pub fn new(
        id: u32,
        name: String,
        race: Race,
        class: ClassDetails,
        level: u32,
        abilities: Abilities,
        skills: Skills,
        proficiencies: SkillProficiencies,
        hit_points: u32,
        armor_class: u32,
    ) -> (r: Character)
        ensures
            r.id == id,
            r.name == name,
            r.race == race,
            r.class == class,
            r.level == level,
            r.abilities == abilities,
            r.skills == skills,
            r.proficiencies == proficiencies,
            r.hit_points == (HitPoints { current: hit_points, max: hit_points, temporary: 0 }),
            r.hit_points.wf(),
            r.armor_class == armor_class,
            r.inventory.items@.len() == 0,
            r.active_effects@.len() == 0,
    {
        Character {
            id,
            name,
            race,
            class,
            level,
            abilities,
            skills,
            proficiencies,
            inventory: Inventory { items: Vec::new() },
            hit_points: HitPoints { current: hit_points, max: hit_points, temporary: 0 },
            armor_class,
            active_effects: Vec::new(),
        }
    }
}

} // verus!
