use freven_vanilla::blocks::{soil_grass_variants, SOIL_GRASS_VARIANT_COUNT};

#[test]
fn soil_grass_variants_have_stable_base_material_fallbacks() {
    let variants = soil_grass_variants();
    assert_eq!(variants.len(), 9);
    assert_eq!(SOIL_GRASS_VARIANT_COUNT, 9);

    for variant in variants {
        assert!(variant.key.starts_with("freven.vanilla:soil_"));
        assert!(variant.fallback_material.starts_with("freven.vanilla:block/soil_"));
        assert!(variant.debug_tint_rgba & 0xFF == 0xFF);
    }
}

#[test]
fn soil_grass_variant_keys_name_fertility_and_coverage() {
    for variant in soil_grass_variants() {
        assert_eq!(
            variant.key,
            format!("freven.vanilla:soil_{}_{}", variant.fertility, variant.coverage)
        );
        assert_eq!(
            variant.fallback_material,
            format!("freven.vanilla:block/soil_{}", variant.fertility)
        );
    }
}
