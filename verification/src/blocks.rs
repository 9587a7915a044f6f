//! Vanilla block keys and the soil/grass block variants.

use vstd::prelude::*;
use crate::text::has_prefix;

verus! {

pub const STONE_KEY: &'static str = "freven.vanilla:stone";

pub const GRANITE_KEY: &'static str = "freven.vanilla:granite";

pub const LIMESTONE_KEY: &'static str = "freven.vanilla:limestone";

pub const DIRT_KEY: &'static str = "freven.vanilla:dirt";

pub const GRASS_KEY: &'static str = "freven.vanilla:grass";

pub const COARSE_DIRT_KEY: &'static str = "freven.vanilla:coarse_dirt";

pub const GLASS_KEY: &'static str = "freven.vanilla:glass";

pub const SOIL_GRASS_VARIANT_COUNT: usize = 9;

/// A soil/grass block: its fertility and coverage, its key, and the material
/// and tint it falls back to.
#[derive(Debug, Clone, Copy, PartialEq, Eq)]
pub struct VanillaBlockVariant {
    pub fertility: &'static str,
    pub coverage: &'static str,
    pub key: &'static str,
    pub fallback_material: &'static str,
    pub debug_tint_rgba: u32,
}

pub open spec fn variant(
    fertility: &'static str,
    coverage: &'static str,
    key: &'static str,
    fallback_material: &'static str,
    debug_tint_rgba: u32,
) -> VanillaBlockVariant {
    VanillaBlockVariant { fertility, coverage, key, fallback_material, debug_tint_rgba }
}

/// Every fertility (poor, medium, rich) with every coverage (bare, sparse,
/// normal).
pub open spec fn soil_grass_variant_table() -> Seq<VanillaBlockVariant> {
    seq![
        variant("poor", "bare", "freven.vanilla:soil_poor_bare", "freven.vanilla:block/soil_poor", 0x5B4632FF),
        variant("poor", "sparse", "freven.vanilla:soil_poor_sparse", "freven.vanilla:block/soil_poor", 0x5B4632FF),
        variant("poor", "normal", "freven.vanilla:soil_poor_normal", "freven.vanilla:block/soil_poor", 0x5B4632FF),
        variant("medium", "bare", "freven.vanilla:soil_medium_bare", "freven.vanilla:block/soil_medium", 0x6F4E2DFF),
        variant("medium", "sparse", "freven.vanilla:soil_medium_sparse", "freven.vanilla:block/soil_medium", 0x6F4E2DFF),
        variant("medium", "normal", "freven.vanilla:soil_medium_normal", "freven.vanilla:block/soil_medium", 0x6F4E2DFF),
        variant("rich", "bare", "freven.vanilla:soil_rich_bare", "freven.vanilla:block/soil_rich", 0x46362AFF),
        variant("rich", "sparse", "freven.vanilla:soil_rich_sparse", "freven.vanilla:block/soil_rich", 0x46362AFF),
        variant("rich", "normal", "freven.vanilla:soil_rich_normal", "freven.vanilla:block/soil_rich", 0x46362AFF),
    ]
}

/// The soil/grass block variants.
pub fn soil_grass_variants() -> (variants: [VanillaBlockVariant; SOIL_GRASS_VARIANT_COUNT])
    ensures
        variants@ == soil_grass_variant_table(),
{
    let variants = [
        VanillaBlockVariant {
            fertility: "poor",
            coverage: "bare",
            key: "freven.vanilla:soil_poor_bare",
            fallback_material: "freven.vanilla:block/soil_poor",
            debug_tint_rgba: 0x5B4632FF,
        },
        VanillaBlockVariant {
            fertility: "poor",
            coverage: "sparse",
            key: "freven.vanilla:soil_poor_sparse",
            fallback_material: "freven.vanilla:block/soil_poor",
            debug_tint_rgba: 0x5B4632FF,
        },
        VanillaBlockVariant {
            fertility: "poor",
            coverage: "normal",
            key: "freven.vanilla:soil_poor_normal",
            fallback_material: "freven.vanilla:block/soil_poor",
            debug_tint_rgba: 0x5B4632FF,
        },
        VanillaBlockVariant {
            fertility: "medium",
            coverage: "bare",
            key: "freven.vanilla:soil_medium_bare",
            fallback_material: "freven.vanilla:block/soil_medium",
            debug_tint_rgba: 0x6F4E2DFF,
        },
        VanillaBlockVariant {
            fertility: "medium",
            coverage: "sparse",
            key: "freven.vanilla:soil_medium_sparse",
            fallback_material: "freven.vanilla:block/soil_medium",
            debug_tint_rgba: 0x6F4E2DFF,
        },
        VanillaBlockVariant {
            fertility: "medium",
            coverage: "normal",
            key: "freven.vanilla:soil_medium_normal",
            fallback_material: "freven.vanilla:block/soil_medium",
            debug_tint_rgba: 0x6F4E2DFF,
        },
        VanillaBlockVariant {
            fertility: "rich",
            coverage: "bare",
            key: "freven.vanilla:soil_rich_bare",
            fallback_material: "freven.vanilla:block/soil_rich",
            debug_tint_rgba: 0x46362AFF,
        },
        VanillaBlockVariant {
            fertility: "rich",
            coverage: "sparse",
            key: "freven.vanilla:soil_rich_sparse",
            fallback_material: "freven.vanilla:block/soil_rich",
            debug_tint_rgba: 0x46362AFF,
        },
        VanillaBlockVariant {
            fertility: "rich",
            coverage: "normal",
            key: "freven.vanilla:soil_rich_normal",
            fallback_material: "freven.vanilla:block/soil_rich",
            debug_tint_rgba: 0x46362AFF,
        },
    ];
    assert(variants@ =~= soil_grass_variant_table());
    variants
}

/// Every soil/grass block is keyed under `freven.vanilla:soil_`, falls back
/// to a `freven.vanilla:block/soil_` material, and has an opaque tint.
pub proof fn lemma_soil_grass_variants_have_stable_fallbacks()
    ensures
        soil_grass_variant_table().len() == SOIL_GRASS_VARIANT_COUNT,
        forall|i: int|
            0 <= i < soil_grass_variant_table().len() ==> has_prefix(
                (#[trigger] soil_grass_variant_table()[i]).key@,
                "freven.vanilla:soil_"@,
            ) && has_prefix(
                soil_grass_variant_table()[i].fallback_material@,
                "freven.vanilla:block/soil_"@,
            ) && soil_grass_variant_table()[i].debug_tint_rgba % 256 == 255,
{
    reveal_strlit("freven.vanilla:soil_");
    reveal_strlit("freven.vanilla:block/soil_");
    reveal_strlit("freven.vanilla:soil_poor_bare");
    reveal_strlit("freven.vanilla:soil_poor_sparse");
    reveal_strlit("freven.vanilla:soil_poor_normal");
    reveal_strlit("freven.vanilla:soil_medium_bare");
    reveal_strlit("freven.vanilla:soil_medium_sparse");
    reveal_strlit("freven.vanilla:soil_medium_normal");
    reveal_strlit("freven.vanilla:soil_rich_bare");
    reveal_strlit("freven.vanilla:soil_rich_sparse");
    reveal_strlit("freven.vanilla:soil_rich_normal");
    reveal_strlit("freven.vanilla:block/soil_poor");
    reveal_strlit("freven.vanilla:block/soil_medium");
    reveal_strlit("freven.vanilla:block/soil_rich");
    let t = soil_grass_variant_table();
    assert forall|i: int| 0 <= i < t.len() implies has_prefix(
        (#[trigger] t[i]).key@,
        "freven.vanilla:soil_"@,
    ) && has_prefix(t[i].fallback_material@, "freven.vanilla:block/soil_"@)
        && t[i].debug_tint_rgba % 256 == 255 by {
        assert(t[i].key@.subrange(0, 20) =~= "freven.vanilla:soil_"@);
        assert(t[i].fallback_material@.subrange(0, 26) =~= "freven.vanilla:block/soil_"@);
    }
}

} // verus!
