use volo::dice::{Dice, Roller};

#[test]
fn rolls_stay_within_count_and_count_times_sides() {
    let mut roller = Roller::seeded(42);
    let specs = [
        Dice { count: 1, sides: 1 },
        Dice { count: 1, sides: 6 },
        Dice { count: 3, sides: 4 },
        Dice { count: 8, sides: 6 },
        Dice { count: 2, sides: 20 },
    ];
    for dice in specs.iter() {
        for _ in 0..500 {
            let total = dice.roll(&mut roller).total;
            assert!(total >= dice.count as u64);
            assert!(total <= dice.count as u64 * dice.sides as u64);
        }
    }
}

#[test]
fn one_sided_dice_show_their_count() {
    let mut roller = Roller::seeded(0);
    assert_eq!(Dice { count: 5, sides: 1 }.roll(&mut roller).total, 5);
}

#[test]
fn faces_vary_and_cover_the_die() {
    let mut roller = Roller::seeded(7);
    let mut seen = [false; 20];
    for _ in 0..2000 {
        let f = roller.face(20);
        assert!((1..=20).contains(&f));
        seen[(f - 1) as usize] = true;
    }
    assert!(seen.iter().all(|s| *s));
}

#[test]
fn same_seed_gives_same_rolls() {
    let mut a = Roller::seeded(123);
    let mut b = Roller::seeded(123);
    let dice = Dice { count: 4, sides: 12 };
    for _ in 0..50 {
        assert_eq!(dice.roll(&mut a), dice.roll(&mut b));
    }
}
