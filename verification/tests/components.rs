use ragdoll_playground::ragdoll::components::{
    PartSize, PartType, RagdollPart, Rgb, COLLISION_COOLDOWN_MS, FULL_HEALTH,
};

const ALL_PARTS: [PartType; 10] = [
    PartType::Head,
    PartType::Torso,
    PartType::UpperArmLeft,
    PartType::LowerArmLeft,
    PartType::UpperArmRight,
    PartType::LowerArmRight,
    PartType::UpperLegLeft,
    PartType::LowerLegLeft,
    PartType::UpperLegRight,
    PartType::LowerLegRight,
];

fn mirror(p: PartType) -> PartType {
    match p {
        PartType::UpperArmLeft => PartType::UpperArmRight,
        PartType::LowerArmLeft => PartType::LowerArmRight,
        PartType::UpperArmRight => PartType::UpperArmLeft,
        PartType::LowerArmRight => PartType::LowerArmLeft,
        PartType::UpperLegLeft => PartType::UpperLegRight,
        PartType::LowerLegLeft => PartType::LowerLegRight,
        PartType::UpperLegRight => PartType::UpperLegLeft,
        PartType::LowerLegRight => PartType::LowerLegLeft,
        other => other,
    }
}

#[test]
fn sizes_of_each_part() {
    assert_eq!(PartType::Head.size(), PartSize { width: 30, height: 30 });
    assert_eq!(PartType::Torso.size(), PartSize { width: 40, height: 60 });
    assert_eq!(PartType::UpperArmLeft.size(), PartSize { width: 15, height: 40 });
    assert_eq!(PartType::LowerArmRight.size(), PartSize { width: 12, height: 35 });
    assert_eq!(PartType::UpperLegRight.size(), PartSize { width: 20, height: 45 });
    assert_eq!(PartType::LowerLegLeft.size(), PartSize { width: 18, height: 40 });
}

#[test]
fn masses_of_each_part_in_tenths() {
    assert_eq!(PartType::Head.mass(), 10);
    assert_eq!(PartType::Torso.mass(), 30);
    assert_eq!(PartType::UpperArmRight.mass(), 15);
    assert_eq!(PartType::LowerArmLeft.mass(), 10);
    assert_eq!(PartType::UpperLegLeft.mass(), 20);
    assert_eq!(PartType::LowerLegRight.mass(), 15);
}

#[test]
fn base_colors_of_each_part() {
    assert_eq!(PartType::Head.base_color(), Rgb { red: 100, green: 85, blue: 70 });
    assert_eq!(PartType::Torso.base_color(), Rgb { red: 20, green: 40, blue: 80 });
    assert_eq!(PartType::UpperArmLeft.base_color(), Rgb { red: 90, green: 30, blue: 30 });
    assert_eq!(PartType::LowerArmRight.base_color(), Rgb { red: 100, green: 60, blue: 30 });
    assert_eq!(PartType::UpperLegRight.base_color(), Rgb { red: 20, green: 70, blue: 30 });
    assert_eq!(PartType::LowerLegLeft.base_color(), Rgb { red: 30, green: 80, blue: 40 });
}

#[test]
fn every_part_is_drawn_white_at_any_allowed_health() {
    let white = Rgb { red: 100, green: 100, blue: 100 };
    for part in ALL_PARTS {
        for health in 0..=FULL_HEALTH {
            assert_eq!(part.color(health), white);
        }
    }
    assert_eq!(PartType::Torso.color(1), white);
    assert_eq!(PartType::Head.color(10), white);
}

#[test]
fn mirrored_limbs_are_alike() {
    for part in ALL_PARTS {
        let other = mirror(part);
        assert_eq!(part.size(), other.size());
        assert_eq!(part.mass(), other.mass());
        assert_eq!(part.base_color(), other.base_color());
        assert_eq!(mirror(other), part);
    }
}

#[test]
fn fresh_part_is_at_full_health() {
    let p = RagdollPart::new(PartType::LowerLegRight);
    assert_eq!(p.part_type, PartType::LowerLegRight);
    assert_eq!(p.health, 10);
    assert_eq!(p.max_health, 10);
    assert_eq!(p.collision_cooldown_ms, 500);
    assert_eq!(FULL_HEALTH, 10);
    assert_eq!(COLLISION_COOLDOWN_MS, 500);
}
