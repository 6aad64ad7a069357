//! Kinds of map meshes the world generator places.

use vstd::prelude::*;

verus! {

/// Building mesh kinds.
#[derive(Debug, Clone, Copy, PartialEq, Eq, Structural)]
pub enum BuildingMeshType {
    HouseSmall,
    HouseMedium,
    HouseLarge,
    Warehouse,
    Tower,
    Barn,
}

/// Vegetation mesh kinds.
#[derive(Debug, Clone, Copy, PartialEq, Eq, Structural)]
pub enum VegetationMeshType {
    PineTree,
    OakTree,
    Rock,
    Bush,
}

} // verus!
