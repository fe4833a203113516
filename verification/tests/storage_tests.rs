use planet_shape::noise::source_table;
use planet_shape::noise_filter::NoiseFilterType;
use planet_shape::noise_filter::NoiseLayer;
use planet_shape::shape::ConfigurationError;
use planet_shape::shape::ShapeGenerator;
use planet_shape::storage::NoiseLayerStorage;
use planet_shape::storage::pack_noise_layers;

#[test]
fn default_record_is_all_zero() {
    let s = NoiseLayerStorage::default();
    assert!(s.simplex_random.iter().all(|&e| e == 0));
    assert_eq!(s.filter_type, 0);
    assert_eq!(s.num_octaves, 0);
    assert_eq!(s.strength.bits, 0);
    assert_eq!(s.roughness.bits, 0);
    assert_eq!(s.lacunarity.bits, 0);
    assert_eq!(s.persistence.bits, 0);
    assert_eq!(s.offset.bits, 0);
    assert_eq!(s.floor.bits, 0);
    assert_eq!(s.center.x.bits, 0);
    assert_eq!(s.warp_target, 0);
    assert_eq!(s.warp_offset.z.bits, 0);
    assert_eq!(s.first_layer_mask, 0);
}

#[test]
fn pack_default_generator_fills_first_slot() {
    let g = ShapeGenerator::default();
    let v = pack_noise_layers(&g).unwrap();
    assert_eq!(v.len(), 16);
    let s = &v[0];
    let src = source_table();
    for j in 0..512 {
        assert_eq!(s.simplex_random[j], src[j % 256] as i32);
    }
    assert_eq!(s.filter_type, 0);
    assert_eq!(s.num_octaves, 1);
    assert_eq!(s.strength.bits, 1.0f32.to_bits());
    assert_eq!(s.roughness.bits, 1.0f32.to_bits());
    assert_eq!(s.lacunarity.bits, 2.0f32.to_bits());
    assert_eq!(s.persistence.bits, 0.5f32.to_bits());
    assert_eq!(s.offset.bits, 0);
    assert_eq!(s.floor.bits, 0);
    assert_eq!(s.warp_target, 1);
    assert_eq!(s.warp_offset.y.bits, 100.0f32.to_bits());
    assert_eq!(s.first_layer_mask, 0);
    for i in 1..16 {
        assert!(v[i].simplex_random.iter().all(|&e| e == 0));
        assert_eq!(v[i].filter_type, 0);
        assert_eq!(v[i].num_octaves, 0);
    }
}

#[test]
fn pack_encodes_variants_and_flags() {
    let mut g = ShapeGenerator::default();
    g.add_layer();
    g.add_layer();
    g.noise_layers[1].set_filter_type(NoiseFilterType::Rigid);
    g.noise_layers[1].first_layer_mask = true;
    g.noise_layers[2].set_filter_type(NoiseFilterType::Warp);
    g.noise_layers[2].warp_target = 2;
    let v = pack_noise_layers(&g).unwrap();
    assert_eq!(v[1].filter_type, 1);
    assert_eq!(v[1].first_layer_mask, 1);
    assert_eq!(v[2].filter_type, 2);
    assert_eq!(v[2].warp_target, 2);
}

#[test]
fn pack_rejects_what_validate_rejects() {
    let mut g = ShapeGenerator::default();
    for _ in 0..16 {
        g.add_layer();
    }
    assert!(matches!(
        pack_noise_layers(&g),
        Err(ConfigurationError::TooManyLayers)
    ));

    let mut empty = ShapeGenerator::default();
    empty.noise_layers = Vec::new();
    empty.num_layers = 0;
    assert!(matches!(
        pack_noise_layers(&empty),
        Err(ConfigurationError::EmptyLayerList)
    ));

    let mut bad_target = ShapeGenerator::default();
    let mut w = NoiseLayer::new(1, true);
    w.set_filter_type(NoiseFilterType::Warp);
    w.warp_target = 5;
    bad_target.noise_layers.push(w);
    bad_target.num_layers = 2;
    assert!(matches!(
        pack_noise_layers(&bad_target),
        Err(ConfigurationError::WarpTargetOutOfRange)
    ));
}
