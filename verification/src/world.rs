//! Prime dimension world generation: biome selection and resources, driven by
//! a deterministic hash of the chunk position and the world seed.

use crate::dimension::ChunkPos;
use vstd::prelude::*;

verus! {

broadcast use vstd::string::group_string_axioms;

/// Biomes available in the Prime dimension.
#[derive(Clone, Copy, Debug, PartialEq, Eq, Hash, Structural)]
pub enum PrimeBiome {
    /// Dense woodland with tall trees.
    Forest,
    /// Open grasslands with occasional vegetation.
    Plains,
    /// High elevation rocky terrain.
    Mountains,
    /// Water bodies and riverbanks.
    River,
}

/// The typical resources of a biome, in order.
pub open spec fn biome_resources(b: PrimeBiome) -> Seq<Seq<char>> {
    match b {
        PrimeBiome::Forest => seq!["wood"@, "berries"@, "mushrooms"@],
        PrimeBiome::Plains => seq!["grass"@, "wheat"@, "flint"@],
        PrimeBiome::Mountains => seq!["stone"@, "iron_ore"@, "coal"@],
        PrimeBiome::River => seq!["clay"@, "reeds"@, "fish"@],
    }
}

/// The name of a biome ("Forest", "Plains", "Mountains", "River").
pub open spec fn biome_name(b: PrimeBiome) -> Seq<char> {
    match b {
        PrimeBiome::Forest => "Forest"@,
        PrimeBiome::Plains => "Plains"@,
        PrimeBiome::Mountains => "Mountains"@,
        PrimeBiome::River => "River"@,
    }
}

/// The texts of a sequence of strings.
pub open spec fn texts(v: Seq<String>) -> Seq<Seq<char>> {
    v.map_values(|s: String| s@)
}

fn strings3(a: &str, b: &str, c: &str) -> (v: Vec<String>)
    ensures
        texts(v@) == seq![a@, b@, c@],
{
    let mut v: Vec<String> = Vec::new();
    v.push(a.to_string());
    v.push(b.to_string());
    v.push(c.to_string());
    assert(texts(v@) =~= seq![a@, b@, c@]);
    v
}

impl PrimeBiome {
    /// The name of the biome.
    pub fn name(&self) -> (s: &'static str)
        ensures
            s@ == biome_name(*self),
    {
        match self {
            PrimeBiome::Forest => "Forest",
            PrimeBiome::Plains => "Plains",
            PrimeBiome::Mountains => "Mountains",
            PrimeBiome::River => "River",
        }
    }

    /// Get typical resources for this biome.
    pub fn typical_resources(&self) -> (v: Vec<String>)
        ensures
            texts(v@) == biome_resources(*self),
    {
        match self {
            PrimeBiome::Forest => strings3("wood", "berries", "mushrooms"),
            PrimeBiome::Plains => strings3("grass", "wheat", "flint"),
            PrimeBiome::Mountains => strings3("stone", "iron_ore", "coal"),
            PrimeBiome::River => strings3("clay", "reeds", "fish"),
        }
    }
}

/// The deterministic hash of a position under a seed: the seed and the
/// coordinates (sign-extended to 64 bits) are folded with
/// `h = h * 31 + c` (wrapping), then mixed with `h ^= h >> 16`,
/// `h *= 0x85eb_ca6b` (wrapping) and `h ^= h >> 13`.
pub open spec fn position_hash(seed: u64, pos: ChunkPos) -> u64 {
    let h1 = vstd::wrapping::u64_specs::wrapping_add(vstd::wrapping::u64_specs::wrapping_mul(seed, 31), pos.x as u64);
    let h2 = vstd::wrapping::u64_specs::wrapping_add(vstd::wrapping::u64_specs::wrapping_mul(h1, 31), pos.y as u64);
    let h3 = vstd::wrapping::u64_specs::wrapping_add(vstd::wrapping::u64_specs::wrapping_mul(h2, 31), pos.z as u64);
    let h4 = h3 ^ (h3 >> 16u64);
    let h5 = vstd::wrapping::u64_specs::wrapping_mul(h4, 0x85eb_ca6b);
    h5 ^ (h5 >> 13u64)
}

/// The biome of a chunk: Mountains above height 80; below height 64 a River
/// when the hash ends in 0, 1 or 2 (mod 10); otherwise by the hash mod 100:
/// 0..=35 Forest, 36..=75 Plains, 76..=90 Mountains, the rest River.
pub open spec fn chosen_biome(seed: u64, pos: ChunkPos) -> PrimeBiome {
    let hash = position_hash(seed, pos);
    if pos.y > 80 {
        PrimeBiome::Mountains
    } else if pos.y < 64 && hash % 10 < 3 {
        PrimeBiome::River
    } else if hash % 100 <= 35 {
        PrimeBiome::Forest
    } else if hash % 100 <= 75 {
        PrimeBiome::Plains
    } else if hash % 100 <= 90 {
        PrimeBiome::Mountains
    } else {
        PrimeBiome::River
    }
}

/// The resources of a chunk: those typical of its biome, then gold ore when
/// the hash is a multiple of 50, then diamond when it is a multiple of 100.
pub open spec fn chunk_resources(seed: u64, pos: ChunkPos, biome: PrimeBiome) -> Seq<Seq<char>> {
    let hash = position_hash(seed, pos);
    let with_gold = if hash % 50 == 0 { biome_resources(biome).push("gold_ore"@) } else { biome_resources(biome) };
    if hash % 100 == 0 { with_gold.push("diamond"@) } else { with_gold }
}

/// World generator for the Prime dimension.
#[derive(Clone, Copy, Debug)]
pub struct PrimeGenerator {
    /// Seed for deterministic generation.
    seed: u64,
}

impl PrimeGenerator {
    /// The generator's seed.
    pub closed spec fn spec_seed(&self) -> u64 {
        self.seed
    }

    /// Create a new Prime dimension generator.
    pub fn new(seed: u64) -> (g: PrimeGenerator)
        ensures
            g.spec_seed() == seed,
    {
        PrimeGenerator { seed }
    }

    /// Get the generator seed.
    pub fn seed(&self) -> (s: u64)
        ensures
            s == self.spec_seed(),
    {
        self.seed
    }

    /// Select biome based on position and seed.
    pub fn select_biome(&self, pos: ChunkPos) -> (b: PrimeBiome)
        ensures
            b == chosen_biome(self.spec_seed(), pos),
    {
        let hash = self.hash_position(pos);
        if pos.y > 80 {
            return PrimeBiome::Mountains;
        }
        if pos.y < 64 && hash % 10 < 3 {
            return PrimeBiome::River;
        }
        let h = hash % 100;
        if h <= 35 {
            PrimeBiome::Forest
        } else if h <= 75 {
            PrimeBiome::Plains
        } else if h <= 90 {
            PrimeBiome::Mountains
        } else {
            PrimeBiome::River
        }
    }

    /// Generate resources for a chunk.
    pub fn generate_resources(&self, pos: ChunkPos, biome: PrimeBiome) -> (v: Vec<String>)
        ensures
            texts(v@) == chunk_resources(self.spec_seed(), pos, biome),
    {
        let mut resources = biome.typical_resources();
        let hash = self.hash_position(pos);
        let ghost base = resources@;
        if hash % 50 == 0 {
            resources.push("gold_ore".to_string());
        }
        let ghost mid = resources@;
        assert(texts(mid) =~= if hash % 50 == 0 { texts(base).push("gold_ore"@) } else { texts(base) });
        if hash % 100 == 0 {
            resources.push("diamond".to_string());
        }
        assert(texts(resources@) =~= if hash % 100 == 0 { texts(mid).push("diamond"@) } else { texts(mid) });
        resources
    }

    /// Hash a position for deterministic pseudo-random values.
    pub fn hash_position(&self, pos: ChunkPos) -> (h: u64)
        ensures
            h == position_hash(self.spec_seed(), pos),
    {
        let x = pos.x as u64;
        let y = pos.y as u64;
        let z = pos.z as u64;
        let mut hash = self.seed;
        hash = hash.wrapping_mul(31).wrapping_add(x);
        hash = hash.wrapping_mul(31).wrapping_add(y);
        hash = hash.wrapping_mul(31).wrapping_add(z);
        hash = hash ^ (hash >> 16u64);
        hash = hash.wrapping_mul(0x85eb_ca6b);
        hash = hash ^ (hash >> 13u64);
        hash
    }
}

/// Chunks above height 80 are always Mountains, whatever the seed.
pub proof fn law_high_altitude_is_mountains(seed: u64, pos: ChunkPos)
    requires
        pos.y > 80,
    ensures
        chosen_biome(seed, pos) == PrimeBiome::Mountains,
{
}

/// A chunk's resources start with the typical resources of its biome, so
/// they are never empty; at most gold ore and diamond follow.
pub proof fn law_resources_extend_typical(seed: u64, pos: ChunkPos, biome: PrimeBiome)
    ensures
        chunk_resources(seed, pos, biome).len() >= 3,
        chunk_resources(seed, pos, biome).len() <= 5,
        chunk_resources(seed, pos, biome).take(3) == biome_resources(biome),
{
    let r = chunk_resources(seed, pos, biome);
    assert(r.take(3) =~= biome_resources(biome));
}

/// Between heights 64 and 80 the biome depends on the position hash modulo
/// 100 alone: Forest for 0..=35, Plains for 36..=75, Mountains for 76..=90
/// and River for 91..=99. Below height 64 the hash ending in 0, 1 or 2
/// (modulo 10) makes a River, and otherwise the same ranges decide.
pub proof fn law_biome_by_height_and_hash(seed: u64, pos: ChunkPos)
    ensures
        ({
            let h = position_hash(seed, pos) % 100;
            let by_hash = if h <= 35 {
                PrimeBiome::Forest
            } else if h <= 75 {
                PrimeBiome::Plains
            } else if h <= 90 {
                PrimeBiome::Mountains
            } else {
                PrimeBiome::River
            };
            &&& 64 <= pos.y <= 80 ==> chosen_biome(seed, pos) == by_hash
            &&& pos.y < 64 && position_hash(seed, pos) % 10 < 3 ==> chosen_biome(seed, pos) == PrimeBiome::River
            &&& pos.y < 64 && position_hash(seed, pos) % 10 >= 3 ==> chosen_biome(seed, pos) == by_hash
        }),
{
}

} // verus!
