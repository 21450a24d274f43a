//! Body parts of a ragdoll and their fixed physical and visual properties.

use vstd::prelude::*;

verus! {

/// The health a freshly spawned body part starts with, which is also its maximum.
pub const FULL_HEALTH: u32 = 10;

/// How long a body part ignores further collisions after one has hurt it, in milliseconds.
pub const COLLISION_COOLDOWN_MS: u32 = 500;

/// One of the ten body parts a ragdoll can be made of.
#[derive(Clone, Copy, PartialEq, Eq, Debug, Structural)]
pub enum PartType {
    Head,
    Torso,
    UpperArmLeft,
    LowerArmLeft,
    UpperArmRight,
    LowerArmRight,
    UpperLegLeft,
    LowerLegLeft,
    UpperLegRight,
    LowerLegRight,
}

/// The unscaled size of a body part's box, in pixels.
#[derive(Clone, Copy, PartialEq, Eq, Debug, Structural)]
pub struct PartSize {
    pub width: u32,
    pub height: u32,
}

/// An sRGB colour whose channels are given in hundredths of full intensity
/// (so `100` is a fully lit channel).
#[derive(Clone, Copy, PartialEq, Eq, Debug, Structural)]
pub struct Rgb {
    pub red: u32,
    pub green: u32,
    pub blue: u32,
}

/// The box of each body part, before the ragdoll's scale is applied.
pub open spec fn part_size(part: PartType) -> PartSize {
    match part {
        PartType::Head => PartSize { width: 30, height: 30 },
        PartType::Torso => PartSize { width: 40, height: 60 },
        PartType::UpperArmLeft | PartType::UpperArmRight => PartSize { width: 15, height: 40 },
        PartType::LowerArmLeft | PartType::LowerArmRight => PartSize { width: 12, height: 35 },
        PartType::UpperLegLeft | PartType::UpperLegRight => PartSize { width: 20, height: 45 },
        PartType::LowerLegLeft | PartType::LowerLegRight => PartSize { width: 18, height: 40 },
    }
}

/// The mass of each body part in tenths of a mass unit, before the ragdoll's scale is applied.
pub open spec fn part_mass(part: PartType) -> u32 {
    match part {
        PartType::Head => 10,
        PartType::Torso => 30,
        PartType::UpperArmLeft | PartType::UpperArmRight => 15,
        PartType::LowerArmLeft | PartType::LowerArmRight => 10,
        PartType::UpperLegLeft | PartType::UpperLegRight => 20,
        PartType::LowerLegLeft | PartType::LowerLegRight => 15,
    }
}

/// The colour each body part is drawn in when no damage tint applies.
pub open spec fn part_base_color(part: PartType) -> Rgb {
    match part {
        PartType::Head => Rgb { red: 100, green: 85, blue: 70 },
        PartType::Torso => Rgb { red: 20, green: 40, blue: 80 },
        PartType::UpperArmLeft | PartType::UpperArmRight => Rgb { red: 90, green: 30, blue: 30 },
        PartType::LowerArmLeft | PartType::LowerArmRight => Rgb { red: 100, green: 60, blue: 30 },
        PartType::UpperLegLeft | PartType::UpperLegRight => Rgb { red: 20, green: 70, blue: 30 },
        PartType::LowerLegLeft | PartType::LowerLegRight => Rgb { red: 30, green: 80, blue: 40 },
    }
}

/// Fully lit white.
pub open spec fn white() -> Rgb {
    Rgb { red: 100, green: 100, blue: 100 }
}

/// The same limb on the other side of the body; the head and torso are their own mirror.
pub open spec fn mirrored(part: PartType) -> PartType {
    match part {
        PartType::Head => PartType::Head,
        PartType::Torso => PartType::Torso,
        PartType::UpperArmLeft => PartType::UpperArmRight,
        PartType::LowerArmLeft => PartType::LowerArmRight,
        PartType::UpperArmRight => PartType::UpperArmLeft,
        PartType::LowerArmRight => PartType::LowerArmLeft,
        PartType::UpperLegLeft => PartType::UpperLegRight,
        PartType::LowerLegLeft => PartType::LowerLegRight,
        PartType::UpperLegRight => PartType::UpperLegLeft,
        PartType::LowerLegRight => PartType::LowerLegLeft,
    }
}

/// A limb and its counterpart on the other side of the body are built alike: same box,
/// same mass, same colour; mirroring twice gives back the limb itself.
pub proof fn lemma_mirrored_parts_are_alike(part: PartType)
    ensures
        part_size(mirrored(part)) == part_size(part),
        part_mass(mirrored(part)) == part_mass(part),
        part_base_color(mirrored(part)) == part_base_color(part),
        mirrored(mirrored(part)) == part,
{
}

impl PartType {
    /// The unscaled box of this body part.
    pub fn size(&self) -> (s: PartSize)
        ensures
            s == part_size(*self),
    {
        match self {
            PartType::Head => PartSize { width: 30, height: 30 },
            PartType::Torso => PartSize { width: 40, height: 60 },
            PartType::UpperArmLeft | PartType::UpperArmRight => PartSize { width: 15, height: 40 },
            PartType::LowerArmLeft | PartType::LowerArmRight => PartSize { width: 12, height: 35 },
            PartType::UpperLegLeft | PartType::UpperLegRight => PartSize { width: 20, height: 45 },
            PartType::LowerLegLeft | PartType::LowerLegRight => PartSize { width: 18, height: 40 },
        }
    }

    /// The unscaled mass of this body part, in tenths of a mass unit.
    pub fn mass(&self) -> (m: u32)
        ensures
            m == part_mass(*self),
    {
        match self {
            PartType::Head => 10,
            PartType::Torso => 30,
            PartType::UpperArmLeft | PartType::UpperArmRight => 15,
            PartType::LowerArmLeft | PartType::LowerArmRight => 10,
            PartType::UpperLegLeft | PartType::UpperLegRight => 20,
            PartType::LowerLegLeft | PartType::LowerLegRight => 15,
        }
    }

    /// The colour this body part is drawn in before any damage tint.
    pub fn base_color(&self) -> (c: Rgb)
        ensures
            c == part_base_color(*self),
    {
        match self {
            PartType::Head => Rgb { red: 100, green: 85, blue: 70 },
            PartType::Torso => Rgb { red: 20, green: 40, blue: 80 },
            PartType::UpperArmLeft | PartType::UpperArmRight => Rgb { red: 90, green: 30, blue: 30 },
            PartType::LowerArmLeft | PartType::LowerArmRight => Rgb { red: 100, green: 60, blue: 30 },
            PartType::UpperLegLeft | PartType::UpperLegRight => Rgb { red: 20, green: 70, blue: 30 },
            PartType::LowerLegLeft | PartType::LowerLegRight => Rgb { red: 30, green: 80, blue: 40 },
        }
    }

    /// The colour a body part with the given health is drawn in.
    ///
    /// The damage factor is the health lost out of [`FULL_HEALTH`]; the tint it would
    /// apply to the base colour is switched off, so every part is drawn white.
    pub fn color(&self, health: u32) -> (c: Rgb)
        requires
            health <= FULL_HEALTH,
        ensures
            c == white(),
    {
        let _base = self.base_color();
        let _damage_factor: u32 = FULL_HEALTH - health;
        Rgb { red: 100, green: 100, blue: 100 }
    }
}

/// The state a body part carries while the ragdoll is alive.
#[derive(Clone, Copy, PartialEq, Eq, Debug, Structural)]
pub struct RagdollPart {
    pub part_type: PartType,
    pub health: u32,
    pub max_health: u32,
    /// Length of the one-shot cooldown after a damaging collision, in milliseconds.
    pub collision_cooldown_ms: u32,
}

impl RagdollPart {
    /// A freshly spawned, undamaged body part.
    pub fn new(part_type: PartType) -> (p: RagdollPart)
        ensures
            p.part_type == part_type,
            p.health == FULL_HEALTH,
            p.max_health == FULL_HEALTH,
            p.collision_cooldown_ms == COLLISION_COOLDOWN_MS,
    {
        RagdollPart {
            part_type,
            health: FULL_HEALTH,
            max_health: FULL_HEALTH,
            collision_cooldown_ms: COLLISION_COOLDOWN_MS,
        }
    }
}

} // verus!
