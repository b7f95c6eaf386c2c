//! The choice of a biome for each place in the world.

use vstd::prelude::*;
use vstd::bytes::{spec_u32_to_le_bytes, u32_to_le_bytes};
use vstd::std_specs::hash::DefaultHasherAdditionalSpecFns;
use std::collections::hash_map::DefaultHasher;
use std::hash::Hasher;
use crate::coordinates::biome_coordinates::BiomeCoordinates;
use crate::world_generator::biomes::biome::Biome;
use crate::world_generator::biomes::desert_biome::DesertBiome;
use crate::world_generator::biomes::grass_hills_biome::GrassHillsBiome;

verus! {

/// The hash of the origin of a biome: what the default hasher of the
/// standard library makes of its `x` and its `z`, each written as four
/// bytes, the lowest first.
pub open spec fn spec_hash_of(biome_coords: (u32, u32)) -> u64 {
    DefaultHasher::spec_finish(
        seq![spec_u32_to_le_bytes(biome_coords.0), spec_u32_to_le_bytes(biome_coords.1)],
    )
}

/// The kind of biome that a hash stands for: the desert for an even hash,
/// the grass hills for an odd one.
pub open spec fn spec_biome_of_hash(hash: u64) -> Biome {
    if hash % 2 == 0 {
        Biome::Desert(DesertBiome)
    } else {
        Biome::GrassHills(GrassHillsBiome)
    }
}

/// The kind of biome that a hash stands for.
pub fn biome_of_hash(hash: u64) -> (biome: Biome)
    ensures
        biome == spec_biome_of_hash(hash),
{
    if hash % 2 == 0 {
        Biome::Desert(DesertBiome)
    } else {
        Biome::GrassHills(GrassHillsBiome)
    }
}

/// The kind of the biome with its origin at `biome_coords`: the kind that
/// the hash of the origin stands for.
pub fn get_biome_at(biome_coords: &BiomeCoordinates) -> (biome: Biome)
    ensures
        biome == spec_biome_of_hash(spec_hash_of(biome_coords@)),
{
    let mut hasher = DefaultHasher::new();
    let x = u32_to_le_bytes(biome_coords.get_x());
    hasher.write(x.as_slice());
    let z = u32_to_le_bytes(biome_coords.get_z());
    hasher.write(z.as_slice());
    assert(hasher@ =~= seq![
        spec_u32_to_le_bytes(biome_coords@.0),
        spec_u32_to_le_bytes(biome_coords@.1),
    ]);
    biome_of_hash(hasher.finish())
}

} // verus!
