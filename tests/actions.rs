use volo::actions::{Action, CastSpell, Shape};
use volo::dice::Dice;
use volo::effect::{Damage, DamageKind, Effect};

#[test]
fn test_construct_fireball_spell_action() {
    let name = String::from("Fireball");
    let actor_id = 1;
    let target_id = 2;
    let effect = Effect::Damage(Damage {
        dice: Dice { count: 8, sides: 6 },
        kind: DamageKind::Fire,
    });
    let shape = Shape::Sphere { radius: 5 };

    let action = Action::CastSpell(CastSpell {
        name,
        actor_id,
        target_id,
        effect,
        shape,
    });

    assert!(match action {
        Action::CastSpell(_) => true,
        _ => false,
    });
}

#[test]
fn damage_dice_of_actions() {
    let fireball = Action::CastSpell(CastSpell {
        name: String::from("Fireball"),
        actor_id: 1,
        target_id: 2,
        effect: Effect::Damage(Damage { dice: Dice { count: 8, sides: 6 }, kind: DamageKind::Fire }),
        shape: Shape::Sphere { radius: 20 },
    });
    assert_eq!(fireball.damage_dice(), Some(Dice { count: 8, sides: 6 }));
    assert_eq!(Action::Dash.damage_dice(), None);
}
