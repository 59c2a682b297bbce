//! What an action does to its target: damage, a condition or a buff.

use crate::dice::Dice;
use vstd::prelude::*;

verus! {

#[derive(Clone, Copy, Debug, PartialEq, Eq)]
pub enum DamageKind {
    Bludgeoning,
    Piercing,
    Slashing,
    Acid,
    Cold,
    Fire,
    Force,
    Lightning,
    Necrotic,
    Poison,
    Psychic,
    Radiant,
    Thunder,
}

#[derive(Clone, Copy, Debug, PartialEq, Eq)]
pub struct Damage {
    pub dice: Dice,
    pub kind: DamageKind,
}

#[derive(Clone, Copy, Debug, PartialEq, Eq)]
pub enum ConditionKind {
    Blinded,
    Charmed,
    Deafened,
    Exhaustion,
    Frightened,
    Grappled,
    Incapacitated,
    Invisible,
    Paralyzed,
    Petrified,
    Poisoned,
    Prone,
    Restrained,
    Stunned,
    Unconscious,
}

#[derive(Clone, Copy, Debug, PartialEq, Eq)]
pub enum DurationUnit {
    Rounds,
    Minutes,
    Hours,
    Days,
    Weeks,
    Months,
    Years,
    Immediate,
}

/// How long an effect lasts. It is recorded with the effect and never
/// counted down.
#[derive(Clone, Copy, Debug, PartialEq, Eq)]
pub struct Duration {
    pub amount: u32,
    pub unit: DurationUnit,
}

#[derive(Clone, Copy, Debug, PartialEq, Eq)]
pub struct Condition {
    pub kind: ConditionKind,
    pub duration: Duration,
}

/// The statistic that an enhancement raises.
#[derive(Clone, Copy, Debug, PartialEq, Eq)]
pub enum EnhancementBuff {
    Strength,
    Dexterity,
    Constitution,
    Intelligence,
    Wisdom,
    Charisma,
    ArmorClass,
    AttackRoll,
    DamageRoll,
    SavingThrow,
    SkillCheck,
    Speed,
    Initiative,
    HitPoints,
    TemporaryHitPoints,
    HitDice,
    SpellAttackRoll,
    SpellSaveDC,
    SpellSlots,
}

#[derive(Clone, Copy, Debug, PartialEq, Eq)]
pub enum BuffKind {
    Enhancement(EnhancementBuff),
    Advantage,
    Disadvantage,
    BonusAction,
    Reaction,
    Resistance,
    Immunity,
    Vulnerability,
}

#[derive(Clone, Copy, Debug, PartialEq, Eq)]
pub struct Buff {
    pub kind: BuffKind,
    pub duration: Duration,
}

#[derive(Clone, Copy, Debug, PartialEq, Eq)]
pub enum Effect {
    Damage(Damage),
    Condition(Condition),
    Buff(Buff),
}

} // verus!
