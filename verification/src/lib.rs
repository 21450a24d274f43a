//! A two-dimensional ragdoll playground: the body parts of a ragdoll, the
//! skeleton it is assembled from, the level it falls into and the decisions
//! that the player's keys drive. Everything here is integer-valued; the
//! physics engine and renderer scale these values into world units.

pub mod control;
pub mod level;
pub mod ragdoll;
