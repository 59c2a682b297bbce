//! Facts about action resolution that hold for every roster, action and roll.

use crate::actions::{Action, Attack, CastSpell};
use crate::effect::{BuffKind, Effect, EnhancementBuff};
use crate::models::{modifier_of, Character};
use crate::state::{after_damage, attack_damage, resolution, rolls_possible, roster_wf, ActionKind, Outcome, ResolveError};
use vstd::prelude::*;

verus! {

/// In a weapon attack between two characters of the roster, a d20 plus the
/// attacker's strength modifier below the target's armor class leaves the
/// roster as it was. Any other roll lowers the target's current hit points by
/// exactly the damage roll plus that modifier (by nothing where that sum is
/// negative), and stops at zero.
pub proof fn lemma_attack_hit_points(
    roster: Map<u32, Character>,
    a: Attack,
    d20: int,
    damage_roll: int,
)
    requires
        roster_wf(roster),
        roster.contains_key(a.actor_id),
        roster.contains_key(a.target_id),
        a.effect is Damage,
    ensures
        ({
            let after = resolution(roster, Action::Attack(a), d20, damage_roll).0;
            let m = modifier_of(roster[a.actor_id].abilities.strength.value as int);
            let before_hp = roster[a.target_id].hit_points.current as int;
            let after_hp = after[a.target_id].hit_points.current as int;
            let dealt = if damage_roll + m > 0 {
                damage_roll + m
            } else {
                0
            };
            &&& after.contains_key(a.target_id)
            &&& d20 + m < roster[a.target_id].armor_class ==> after == roster
            &&& d20 + m >= roster[a.target_id].armor_class ==> after_hp == if before_hp >= dealt {
                before_hp - dealt
            } else {
                0
            }
            &&& after_hp >= 0
        }),
{
}

/// Whatever action is resolved on a well-formed roster, with rolls that the
/// dice can show, every character's current hit points afterwards lie between zero
/// and its maximum.
pub proof fn lemma_hit_points_stay_in_bounds(
    roster: Map<u32, Character>,
    action: Action,
    d20: int,
    damage_roll: int,
)
    requires
        roster_wf(roster),
        rolls_possible(action, d20, damage_roll),
    ensures
        ({
            let after = resolution(roster, action, d20, damage_roll).0;
            &&& roster_wf(after)
            &&& forall|id: u32| #[trigger]
                after.contains_key(id) ==> 0 <= after[id].hit_points.current
                    <= after[id].hit_points.max
        }),
{
    let after = resolution(roster, action, d20, damage_roll).0;
    assert forall|id: u32| #[trigger] after.contains_key(id) implies after[id].id == id
        && after[id].hit_points.wf() by {
        assert(roster.contains_key(id));
        match action {
            Action::Attack(a) => {
                if id == a.target_id && roster.contains_key(a.actor_id) {
                    let m = modifier_of(roster[a.actor_id].abilities.strength.value as int);
                    assert(0 <= after_damage(roster[id].hit_points.current as int, attack_damage(damage_roll, m))
                        <= roster[id].hit_points.current);
                }
            },
            Action::CastSpell(s) => {
                if id == s.target_id && s.effect is Damage {
                    assert(0 <= after_damage(roster[id].hit_points.current as int, damage_roll)
                        <= roster[id].hit_points.current);
                }
            },
            _ => {},
        }
    }
}

/// A resolution that fails leaves the roster as it was.
pub proof fn lemma_error_leaves_roster_unchanged(
    roster: Map<u32, Character>,
    action: Action,
    d20: int,
    damage_roll: int,
)
    ensures
        resolution(roster, action, d20, damage_roll).1 is Err ==> resolution(
            roster,
            action,
            d20,
            damage_roll,
        ).0 == roster,
{
}

/// Whether `s` casts an enhancement of strength.
pub open spec fn enhances_strength(s: CastSpell) -> bool {
    s.effect matches Effect::Buff(b) && b.kind == BuffKind::Enhancement(EnhancementBuff::Strength)
}

/// An enhancement of strength cast between two characters of the roster
/// raises the target's strength by exactly two, and reports the new value.
pub proof fn lemma_strength_enhancement_adds_two(
    roster: Map<u32, Character>,
    s: CastSpell,
    d20: int,
    damage_roll: int,
)
    requires
        roster_wf(roster),
        roster.contains_key(s.actor_id),
        roster.contains_key(s.target_id),
        enhances_strength(s),
        roster[s.target_id].abilities.strength.value + 2 <= u32::MAX,
    ensures
        ({
            let (after, r) = resolution(roster, Action::CastSpell(s), d20, damage_roll);
            let v = roster[s.target_id].abilities.strength.value + 2;
            &&& after.contains_key(s.target_id)
            &&& after[s.target_id].abilities.strength.value == v
            &&& r == Ok::<Outcome, ResolveError>(
                Outcome::BuffApplied { stat: EnhancementBuff::Strength, new_value: v as u32 },
            )
        }),
{
}

/// Casting the same enhancement of strength twice raises the target's
/// strength by four: the enhancement accumulates.
pub proof fn lemma_strength_enhancement_accumulates(
    roster: Map<u32, Character>,
    s: CastSpell,
    first_d20: int,
    first_damage_roll: int,
    second_d20: int,
    second_damage_roll: int,
)
    requires
        roster_wf(roster),
        roster.contains_key(s.actor_id),
        roster.contains_key(s.target_id),
        enhances_strength(s),
        roster[s.target_id].abilities.strength.value + 4 <= u32::MAX,
    ensures
        ({
            let once = resolution(roster, Action::CastSpell(s), first_d20, first_damage_roll).0;
            let twice = resolution(once, Action::CastSpell(s), second_d20, second_damage_roll).0;
            &&& twice.contains_key(s.target_id)
            &&& twice[s.target_id].abilities.strength.value == roster[s.target_id].abilities.strength.value + 4
        }),
{
    lemma_strength_enhancement_adds_two(roster, s, first_d20, first_damage_roll);
    let once = resolution(roster, Action::CastSpell(s), first_d20, first_damage_roll).0;
    assert(roster_wf(once)) by {
        assert forall|id: u32| #[trigger] once.contains_key(id) implies once[id].id == id
            && once[id].hit_points.wf() by {
            assert(roster.contains_key(id));
        }
    }
    lemma_strength_enhancement_adds_two(once, s, second_d20, second_damage_roll);
}

} // verus!
