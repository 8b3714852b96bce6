use game::Stat;

fn s(health: i32, attack: i32, defense: i32, magic: i32) -> Stat {
    Stat { health, attack, defense, magic }
}

#[test]
fn test_stat_display() {
    let stat = Stat {
        health: 100,
        attack: 100,
        magic: 100,
        defense: 100,
    };

    assert_eq!(stat.render(), "State: [health: 100, attack: 100, defense: 100, magic: 100]\n");
}

#[test]
fn render_keeps_field_order_and_signs() {
    assert_eq!(s(1, -2, 30, 0).render(), "State: [health: 1, attack: -2, defense: 30, magic: 0]\n");
    assert_eq!(
        s(i32::MIN, i32::MAX, -10, 9).render(),
        "State: [health: -2147483648, attack: 2147483647, defense: -10, magic: 9]\n"
    );
}

#[test]
fn test_stat_add_cases() {
    let stat2 = s(-10, 0, 100, 19);
    assert_eq!(s(10, 10, 10, 10) + stat2, s(0, 10, 110, 29));
    assert_eq!(s(0, 0, 0, 0) + stat2, s(-10, 0, 100, 19));
    assert_eq!(s(-10, -10, -10, -10) + stat2, s(-20, -10, 90, 9));
}

#[test]
fn test_stat_sub_cases() {
    let stat2 = s(-10, 0, 100, 19);
    assert_eq!(s(10, 10, 10, 10) - stat2, s(20, 10, -90, -9));
    assert_eq!(s(0, 0, 0, 0) - stat2, s(10, 0, -100, -19));
    assert_eq!(s(-10, -10, -10, -10) - stat2, s(0, -10, -110, -29));
}

#[test]
fn test_stat_add_assign() {
    let mut stat = Stat {
        health: -10,
        attack: -10,
        defense: -10,
        magic: -10,
    };

    let stat2 = Stat {
        health: 10,
        attack: 10,
        defense: 10,
        magic: 10,
    };

    stat.add_assign(stat2);
    assert_eq!(stat, Stat { health: 0, attack: 0, defense: 0, magic: 0 })
}

#[test]
fn test_stat_sub_assign() {
    let mut stat = Stat {
        health: 10,
        attack: 10,
        defense: 10,
        magic: 10,
    };
    let stat2 = Stat {
        health: 10,
        attack: 10,
        defense: 10,
        magic: 10,
    };
    stat.sub_assign(stat2);
    assert_eq!(stat, Stat { health: 0, attack: 0, defense: 0, magic: 0 })
}

#[test]
fn add_commutes_and_sub_undoes_add() {
    let a = s(3, -7, 12, 0);
    let b = s(-40, 8, 5, 99);
    assert_eq!(a + b, b + a);
    assert_eq!((a + b) - b, a);
    assert_eq!(a + b, s(-37, 1, 17, 99));
}

#[test]
fn sub_is_not_commutative() {
    let a = s(3, -7, 12, 0);
    let b = s(-40, 8, 5, 99);
    assert_eq!(a - b, s(43, -15, 7, -99));
    assert_eq!(b - a, s(-43, 15, -7, 99));
}

#[test]
fn zero_is_additive_identity() {
    let a = s(i32::MAX, i32::MIN, -1, 1);
    assert_eq!(a + s(0, 0, 0, 0), a);
}
