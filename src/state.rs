//! The roster of participants and the action resolver.

use crate::actions::{damage_dice_of, Action, Attack, CastSpell};
use crate::dice::{Dice, Roller};
use crate::effect::{BuffKind, Effect, EnhancementBuff};
use crate::models::{modifier_of, Abilities, Ability, Character, HitPoints};
use std::collections::BTreeMap;
use vstd::prelude::*;

verus! {

broadcast use vstd::laws_cmp::group_laws_cmp, vstd::std_specs::btree::group_btree_axioms;

/// What resolving an action did.
#[derive(Clone, Copy, Debug, PartialEq, Eq)]
pub enum Outcome {
    Hit { damage_dealt: u64 },
    Miss,
    BuffApplied { stat: EnhancementBuff, new_value: u32 },
}

/// A move or an effect that the resolver does not carry out.
#[derive(Clone, Copy, Debug, PartialEq, Eq)]
pub enum ActionKind {
    Dash,
    Disengage,
    Dodge,
    Help,
    Hide,
    Ready,
    Search,
    UseObject,
    Condition,
    Buff(BuffKind),
}

/// Why an action could not be resolved. The roster is left as it was.
#[derive(Clone, Copy, Debug, PartialEq, Eq)]
pub enum ResolveError {
    ActorNotFound { id: u32 },
    TargetNotFound { id: u32 },
    UnsupportedEffectForAction,
    UnimplementedAction { action_kind: ActionKind },
}

/// Why a character could not join the roster.
#[derive(Clone, Copy, Debug, PartialEq, Eq)]
pub enum RosterError {
    DuplicateId { id: u32 },
    HitPointsAboveMax { id: u32 },
}

/// Every character is filed under its own id, with current hit points no
/// greater than its maximum.
pub open spec fn roster_wf(roster: Map<u32, Character>) -> bool {
    forall|id: u32|
        #[trigger] roster.contains_key(id) ==> roster[id].id == id && roster[id].hit_points.wf()
}

/// The rolls are totals that the dice can show: a face of the d20, and a
/// total of the action's damage dice where it carries any.
pub open spec fn rolls_possible(action: Action, d20: int, damage_roll: int) -> bool {
    &&& 1 <= d20 <= 20
    &&& match damage_dice_of(action) {
        Some(d) => d.can_show(damage_roll),
        None => true,
    }
}

/// Hit points left after taking `damage`: lowered by it, never below zero.
pub open spec fn after_damage(current: int, damage: int) -> int {
    if damage >= current {
        0
    } else {
        current - damage
    }
}

/// What a weapon attack deals: the damage roll plus the modifier, never
/// below zero.
pub open spec fn attack_damage(damage_roll: int, modifier: int) -> int {
    if damage_roll + modifier > 0 {
        damage_roll + modifier
    } else {
        0
    }
}

/// `c` after taking `damage`.
pub open spec fn damaged(c: Character, damage: int) -> Character {
    Character {
        hit_points: HitPoints {
            current: after_damage(c.hit_points.current as int, damage) as u32,
            ..c.hit_points
        },
        ..c
    }
}

/// A value raised by two, held at the largest `u32`.
pub open spec fn raised(value: u32) -> u32 {
    if value <= u32::MAX - 2 {
        (value + 2) as u32
    } else {
        u32::MAX
    }
}

/// `c` with the statistic `stat` raised, and its new value; `None` where the
/// enhancement is not carried out.
pub open spec fn enhancement(c: Character, stat: EnhancementBuff) -> Option<(Character, u32)> {
    let a = c.abilities;
    match stat {
        EnhancementBuff::Strength => {
            let v = raised(a.strength.value);
            Some((Character { abilities: Abilities { strength: Ability { value: v }, ..a }, ..c }, v))
        },
        EnhancementBuff::Dexterity => {
            let v = raised(a.dexterity.value);
            Some((Character { abilities: Abilities { dexterity: Ability { value: v }, ..a }, ..c }, v))
        },
        EnhancementBuff::Constitution => {
            let v = raised(a.constitution.value);
            Some((Character { abilities: Abilities { constitution: Ability { value: v }, ..a }, ..c }, v))
        },
        EnhancementBuff::Intelligence => {
            let v = raised(a.intelligence.value);
            Some((Character { abilities: Abilities { intelligence: Ability { value: v }, ..a }, ..c }, v))
        },
        EnhancementBuff::Wisdom => {
            let v = raised(a.wisdom.value);
            Some((Character { abilities: Abilities { wisdom: Ability { value: v }, ..a }, ..c }, v))
        },
        EnhancementBuff::Charisma => {
            let v = raised(a.charisma.value);
            Some((Character { abilities: Abilities { charisma: Ability { value: v }, ..a }, ..c }, v))
        },
        EnhancementBuff::ArmorClass => {
            let v = raised(c.armor_class);
            Some((Character { armor_class: v, ..c }, v))
        },
        _ => None,
    }
}

/// A weapon attack: a d20 plus the attacker's strength modifier against the
/// target's armor class; on a hit the damage roll plus that modifier.
pub open spec fn attack_resolution(roster: Map<u32, Character>, a: Attack, d20: int, damage_roll: int) -> (Map<u32, Character>, Result<Outcome, ResolveError>) {
    if !roster.contains_key(a.actor_id) {
        (roster, Err(ResolveError::ActorNotFound { id: a.actor_id }))
    } else if !roster.contains_key(a.target_id) {
        (roster, Err(ResolveError::TargetNotFound { id: a.target_id }))
    } else {
        match a.effect {
            Effect::Damage(_) => {
                let m = modifier_of(roster[a.actor_id].abilities.strength.value as int);
                let target = roster[a.target_id];
                if d20 + m < target.armor_class {
                    (roster, Ok(Outcome::Miss))
                } else {
                    let dealt = attack_damage(damage_roll, m);
                    (roster.insert(a.target_id, damaged(target, dealt)), Ok(Outcome::Hit { damage_dealt: dealt as u64 }))
                }
            },
            _ => (roster, Err(ResolveError::UnsupportedEffectForAction)),
        }
    }
}

/// A spell: damage needs a d20 plus the caster's intelligence modifier to
/// reach the target's armor class and then deals the damage roll; an
/// enhancement raises the target's statistic by two.
pub open spec fn spell_resolution(roster: Map<u32, Character>, s: CastSpell, d20: int, damage_roll: int) -> (Map<u32, Character>, Result<Outcome, ResolveError>) {
    if !roster.contains_key(s.actor_id) {
        (roster, Err(ResolveError::ActorNotFound { id: s.actor_id }))
    } else if !roster.contains_key(s.target_id) {
        (roster, Err(ResolveError::TargetNotFound { id: s.target_id }))
    } else {
        let target = roster[s.target_id];
        match s.effect {
            Effect::Damage(_) => {
                let m = modifier_of(roster[s.actor_id].abilities.intelligence.value as int);
                if d20 + m < target.armor_class {
                    (roster, Ok(Outcome::Miss))
                } else {
                    (roster.insert(s.target_id, damaged(target, damage_roll)), Ok(Outcome::Hit { damage_dealt: damage_roll as u64 }))
                }
            },
            Effect::Buff(b) => match b.kind {
                BuffKind::Enhancement(stat) => match enhancement(target, stat) {
                    Some((changed, v)) => (roster.insert(s.target_id, changed), Ok(Outcome::BuffApplied { stat, new_value: v })),
                    None => (roster, Err(ResolveError::UnimplementedAction { action_kind: ActionKind::Buff(b.kind) })),
                },
                _ => (roster, Err(ResolveError::UnimplementedAction { action_kind: ActionKind::Buff(b.kind) })),
            },
            Effect::Condition(_) => (roster, Err(ResolveError::UnimplementedAction { action_kind: ActionKind::Condition })),
        }
    }
}

/// The roster after `action`, and the outcome, given the face of the d20 and
/// the total of the action's damage dice.
pub open spec fn resolution(roster: Map<u32, Character>, action: Action, d20: int, damage_roll: int) -> (Map<u32, Character>, Result<Outcome, ResolveError>) {
    match action {
        Action::Attack(a) => attack_resolution(roster, a, d20, damage_roll),
        Action::CastSpell(s) => spell_resolution(roster, s, d20, damage_roll),
        Action::Dash => (roster, Err(ResolveError::UnimplementedAction { action_kind: ActionKind::Dash })),
        Action::Disengage => (roster, Err(ResolveError::UnimplementedAction { action_kind: ActionKind::Disengage })),
        Action::Dodge => (roster, Err(ResolveError::UnimplementedAction { action_kind: ActionKind::Dodge })),
        Action::Help => (roster, Err(ResolveError::UnimplementedAction { action_kind: ActionKind::Help })),
        Action::Hide => (roster, Err(ResolveError::UnimplementedAction { action_kind: ActionKind::Hide })),
        Action::Ready => (roster, Err(ResolveError::UnimplementedAction { action_kind: ActionKind::Ready })),
        Action::Search => (roster, Err(ResolveError::UnimplementedAction { action_kind: ActionKind::Search })),
        Action::UseObject => (roster, Err(ResolveError::UnimplementedAction { action_kind: ActionKind::UseObject })),
    }
}

/// The participants of a combat, keyed by id.
pub struct State {
    characters: BTreeMap<u32, Character>,
}

impl View for State {
    type V = Map<u32, Character>;

    closed spec fn view(&self) -> Map<u32, Character> {
        self.characters@
    }
}

impl State {
    pub open spec fn wf(&self) -> bool {
        roster_wf(self@)
    }

    /// An empty roster.
    pub fn new() -> (r: State)
        ensures
            r.wf(),
            r@ == Map::<u32, Character>::empty(),
    {
        State { characters: BTreeMap::new() }
    }

    /// The character filed under `id`, if any.
    pub fn character(&self, id: u32) -> (r: Option<&Character>)
        ensures
            match r {
                Some(c) => self@.contains_key(id) && *c == self@[id],
                None => !self@.contains_key(id),
            },
    {
        self.characters.get(&id)
    }

    /// Adds a character under its id. It is refused where the id is taken,
    /// or where its current hit points exceed its maximum.
    pub fn add_character(&mut self, character: Character) -> (r: Result<(), RosterError>)
        requires
            old(self).wf(),
        ensures
            final(self).wf(),
            old(self)@.contains_key(character.id) ==> r == Err::<(), RosterError>(
                RosterError::DuplicateId { id: character.id },
            ) && final(self)@ == old(self)@,
            !old(self)@.contains_key(character.id) && !character.hit_points.wf() ==> r == Err::<
                (),
                RosterError,
            >(RosterError::HitPointsAboveMax { id: character.id }) && final(self)@ == old(self)@,
            !old(self)@.contains_key(character.id) && character.hit_points.wf() ==> r == Ok::<
                (),
                RosterError,
            >(()) && final(self)@ == old(self)@.insert(character.id, character),
    {
        let id = character.id;
        if self.characters.contains_key(&id) {
            return Err(RosterError::DuplicateId { id });
        }
        if character.hit_points.current > character.hit_points.max {
            return Err(RosterError::HitPointsAboveMax { id });
        }
        self.characters.insert(id, character);
        Ok(())
    }

    /// Lowers the current hit points of the character under `id` by
    /// `damage`, never below zero.
    fn damage_character(&mut self, id: u32, damage: u64)
        requires
            old(self).wf(),
            old(self)@.contains_key(id),
        ensures
            final(self).wf(),
            final(self)@ == old(self)@.insert(id, damaged(old(self)@[id], damage as int)),
    {
        let removed = self.characters.remove(&id);
        if let Some(mut c) = removed {
            take_damage(&mut c, damage);
            self.characters.insert(id, c);
        }
        assert(self.characters@ =~= old(self)@.insert(id, damaged(old(self)@[id], damage as int)));
    }

    /// Raises the statistic `stat` of the character under `id`, where that
    /// enhancement is carried out, and gives its new value.
    fn enhance_character(&mut self, id: u32, stat: EnhancementBuff) -> (r: Option<u32>)
        requires
            old(self).wf(),
            old(self)@.contains_key(id),
        ensures
            final(self).wf(),
            match enhancement(old(self)@[id], stat) {
                Some((changed, v)) => r == Some(v) && final(self)@ == old(self)@.insert(id, changed),
                None => r is None && final(self)@ == old(self)@,
            },
    {
        let removed = self.characters.remove(&id);
        let mut r: Option<u32> = None;
        if let Some(mut c) = removed {
            r = enhance(&mut c, stat);
            self.characters.insert(id, c);
        }
        proof {
            match enhancement(old(self)@[id], stat) {
                Some((changed, v)) => {
                    assert(self.characters@ =~= old(self)@.insert(id, changed));
                },
                None => {
                    assert(self.characters@ =~= old(self)@);
                },
            }
        }
        r
    }

    fn resolve_attack(&mut self, a: &Attack, d20: u32, damage_roll: u64) -> (r: Result<Outcome, ResolveError>)
        requires
            old(self).wf(),
            rolls_possible(Action::Attack(*a), d20 as int, damage_roll as int),
        ensures
            final(self).wf(),
            (final(self)@, r) == attack_resolution(old(self)@, *a, d20 as int, damage_roll as int),
    {
        let m: i32 = match self.characters.get(&a.actor_id) {
            Some(actor) => actor.abilities.strength.get_modifier(),
            None => return Err(ResolveError::ActorNotFound { id: a.actor_id }),
        };
        let armor_class: u32 = match self.characters.get(&a.target_id) {
            Some(target) => target.armor_class,
            None => return Err(ResolveError::TargetNotFound { id: a.target_id }),
        };
        let dice: Dice = match a.effect {
            Effect::Damage(d) => d.dice,
            _ => return Err(ResolveError::UnsupportedEffectForAction),
        };
        if (d20 as i64) + (m as i64) < armor_class as i64 {
            return Ok(Outcome::Miss);
        }
        proof {
            dice.lemma_max_total_bound();
        }
        let dealt = weapon_damage(damage_roll, m);
        self.damage_character(a.target_id, dealt);
        Ok(Outcome::Hit { damage_dealt: dealt })
    }

    fn resolve_spell(&mut self, s: &CastSpell, d20: u32, damage_roll: u64) -> (r: Result<Outcome, ResolveError>)
        requires
            old(self).wf(),
            rolls_possible(Action::CastSpell(*s), d20 as int, damage_roll as int),
        ensures
            final(self).wf(),
            (final(self)@, r) == spell_resolution(old(self)@, *s, d20 as int, damage_roll as int),
    {
        let m: i32 = match self.characters.get(&s.actor_id) {
            Some(caster) => caster.abilities.intelligence.get_modifier(),
            None => return Err(ResolveError::ActorNotFound { id: s.actor_id }),
        };
        let armor_class: u32 = match self.characters.get(&s.target_id) {
            Some(target) => target.armor_class,
            None => return Err(ResolveError::TargetNotFound { id: s.target_id }),
        };
        match s.effect {
            Effect::Damage(_) => {
                if (d20 as i64) + (m as i64) < armor_class as i64 {
                    Ok(Outcome::Miss)
                } else {
                    self.damage_character(s.target_id, damage_roll);
                    Ok(Outcome::Hit { damage_dealt: damage_roll })
                }
            },
            Effect::Buff(b) => match b.kind {
                BuffKind::Enhancement(stat) => match self.enhance_character(s.target_id, stat) {
                    Some(v) => Ok(Outcome::BuffApplied { stat, new_value: v }),
                    None => Err(ResolveError::UnimplementedAction { action_kind: ActionKind::Buff(b.kind) }),
                },
                _ => Err(ResolveError::UnimplementedAction { action_kind: ActionKind::Buff(b.kind) }),
            },
            Effect::Condition(_) => Err(ResolveError::UnimplementedAction { action_kind: ActionKind::Condition }),
        }
    }

    /// Resolves `action` with the given face of the d20 and total of the
    /// action's damage dice: one lookup, computation and update of the
    /// roster.
    pub fn resolve_with_rolls(&mut self, action: &Action, d20: u32, damage_roll: u64) -> (r: Result<Outcome, ResolveError>)
        requires
            old(self).wf(),
            rolls_possible(*action, d20 as int, damage_roll as int),
        ensures
            final(self).wf(),
            (final(self)@, r) == resolution(old(self)@, *action, d20 as int, damage_roll as int),
    {
        match action {
            Action::Attack(a) => self.resolve_attack(a, d20, damage_roll),
            Action::CastSpell(s) => self.resolve_spell(s, d20, damage_roll),
            Action::Dash => Err(ResolveError::UnimplementedAction { action_kind: ActionKind::Dash }),
            Action::Disengage => Err(ResolveError::UnimplementedAction { action_kind: ActionKind::Disengage }),
            Action::Dodge => Err(ResolveError::UnimplementedAction { action_kind: ActionKind::Dodge }),
            Action::Help => Err(ResolveError::UnimplementedAction { action_kind: ActionKind::Help }),
            Action::Hide => Err(ResolveError::UnimplementedAction { action_kind: ActionKind::Hide }),
            Action::Ready => Err(ResolveError::UnimplementedAction { action_kind: ActionKind::Ready }),
            Action::Search => Err(ResolveError::UnimplementedAction { action_kind: ActionKind::Search }),
            Action::UseObject => Err(ResolveError::UnimplementedAction { action_kind: ActionKind::UseObject }),
        }
    }

    /// Rolls a d20 and the action's damage dice, if any, from `roller`, and
    /// resolves `action` with them.
    pub fn apply_action(&mut self, action: Action, roller: &mut Roller) -> (r: Result<Outcome, ResolveError>)
        requires
            old(self).wf(),
            action.wf(),
        ensures
            final(self).wf(),
            exists|d20: int, damage_roll: int|
                rolls_possible(action, d20, damage_roll) && #[trigger] resolution(
                    old(self)@,
                    action,
                    d20,
                    damage_roll,
                ) == (final(self)@, r),
    {
        let d20 = roller.face(20);
        let damage_roll: u64 = match action.damage_dice() {
            Some(d) => d.roll(roller).total,
            None => 0,
        };
        let r = self.resolve_with_rolls(&action, d20, damage_roll);
        assert(rolls_possible(action, d20 as int, damage_roll as int) && resolution(
            old(self)@,
            action,
            d20 as int,
            damage_roll as int,
        ) == (self@, r));
        r
    }
}

/// Lowers the current hit points by `damage`, never below zero.
fn take_damage(c: &mut Character, damage: u64)
    ensures
        *final(c) == damaged(*old(c), damage as int),
{
    if damage >= c.hit_points.current as u64 {
        c.hit_points.current = 0;
    } else {
        c.hit_points.current = c.hit_points.current - damage as u32;
    }
}

/// The damage roll plus the modifier, never below zero.
fn weapon_damage(damage_roll: u64, modifier: i32) -> (r: u64)
    requires
        damage_roll as int + modifier as int <= u64::MAX,
    ensures
        r == attack_damage(damage_roll as int, modifier as int),
{
    if modifier >= 0 {
        damage_roll + modifier as u64
    } else {
        let reduction = (0 - modifier as i64) as u64;
        if damage_roll > reduction {
            damage_roll - reduction
        } else {
            0
        }
    }
}

/// A value raised by two, held at the largest `u32`.
fn raise(value: u32) -> (r: u32)
    ensures
        r == raised(value),
{
    if value <= u32::MAX - 2 {
        value + 2
    } else {
        u32::MAX
    }
}

/// Raises the statistic `stat` of `c`, where that enhancement is carried
/// out, and gives its new value.
fn enhance(c: &mut Character, stat: EnhancementBuff) -> (r: Option<u32>)
    ensures
        match enhancement(*old(c), stat) {
            Some((changed, v)) => r == Some(v) && *final(c) == changed,
            None => r is None && *final(c) == *old(c),
        },
{
    match stat {
        EnhancementBuff::Strength => {
            c.abilities.strength.value = raise(c.abilities.strength.value);
            Some(c.abilities.strength.value)
        },
        EnhancementBuff::Dexterity => {
            c.abilities.dexterity.value = raise(c.abilities.dexterity.value);
            Some(c.abilities.dexterity.value)
        },
        EnhancementBuff::Constitution => {
            c.abilities.constitution.value = raise(c.abilities.constitution.value);
            Some(c.abilities.constitution.value)
        },
        EnhancementBuff::Intelligence => {
            c.abilities.intelligence.value = raise(c.abilities.intelligence.value);
            Some(c.abilities.intelligence.value)
        },
        EnhancementBuff::Wisdom => {
            c.abilities.wisdom.value = raise(c.abilities.wisdom.value);
            Some(c.abilities.wisdom.value)
        },
        EnhancementBuff::Charisma => {
            c.abilities.charisma.value = raise(c.abilities.charisma.value);
            Some(c.abilities.charisma.value)
        },
        EnhancementBuff::ArmorClass => {
            c.armor_class = raise(c.armor_class);
            Some(c.armor_class)
        },
        _ => None,
    }
}

} // verus!
