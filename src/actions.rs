//! The moves a participant can make.

use crate::dice::Dice;
use crate::effect::Effect;
use vstd::prelude::*;

verus! {

#[derive(Clone, Debug, PartialEq)]
pub struct Attack {
    pub name: String,
    pub actor_id: u32,
    pub target_id: u32,
    pub effect: Effect,
}

/// Where an action is aimed: a participant, or a point of the map given in
/// feet from its origin.
#[derive(Clone, Copy, Debug, PartialEq, Eq)]
pub enum Target {
    Actor(u32),
    Point(i32, i32),
}

/// The area that a spell covers. Lengths are in feet and angles in degrees.
/// It is carried with the spell and not consulted when the spell resolves.
#[derive(Clone, Copy, Debug, PartialEq, Eq)]
pub enum Shape {
    NoShape,
    Cone { length: u32, angle: u32 },
    Cube { length: u32, width: u32, height: u32 },
    Cylinder { radius: u32, height: u32 },
    Sphere { radius: u32 },
    Line { length: u32 },
    Point,
}

#[derive(Clone, Debug, PartialEq)]
pub struct CastSpell {
    pub name: String,
    pub actor_id: u32,
    pub target_id: u32,
    pub effect: Effect,
    pub shape: Shape,
}

#[derive(Clone, Debug, PartialEq)]
pub enum Action {
    Attack(Attack),
    CastSpell(CastSpell),
    Dash,
    Disengage,
    Dodge,
    Help,
    Hide,
    Ready,
    Search,
    UseObject,
}

/// The dice of the damage that an action carries, if it carries any.
pub open spec fn damage_dice_of(action: Action) -> Option<Dice> {
    match action {
        Action::Attack(a) => match a.effect {
            Effect::Damage(d) => Some(d.dice),
            _ => None,
        },
        Action::CastSpell(s) => match s.effect {
            Effect::Damage(d) => Some(d.dice),
            _ => None,
        },
        _ => None,
    }
}

impl Action {
    /// Any damage dice that the action carries are well formed.
    pub open spec fn wf(&self) -> bool {
        match damage_dice_of(*self) {
            Some(d) => d.wf(),
            None => true,
        }
    }

    /// The dice of the damage that the action carries, if it carries any.
    pub fn damage_dice(&self) -> (r: Option<Dice>)
        ensures
            r == damage_dice_of(*self),
    {
        match self {
            Action::Attack(a) => match a.effect {
                Effect::Damage(d) => Some(d.dice),
                _ => None,
            },
            Action::CastSpell(s) => match s.effect {
                Effect::Damage(d) => Some(d.dice),
                _ => None,
            },
            _ => None,
        }
    }
}

} // verus!
