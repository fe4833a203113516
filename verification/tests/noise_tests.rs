use planet_shape::noise::CornerOffsets;
use planet_shape::noise::NoiseSimplex3d;
use planet_shape::noise::corner_offsets;
use planet_shape::noise::gradient;
use planet_shape::noise::source_table;

#[test]
fn seed_zero_reproduces_source() {
    let k = NoiseSimplex3d::new(0);
    let src = source_table();
    for i in 0..512 {
        assert_eq!(k.random[i], src[i % 256]);
    }
}

#[test]
fn source_table_spot_values() {
    let src = source_table();
    assert_eq!(src[0], 151);
    assert_eq!(src[1], 160);
    assert_eq!(src[5], 15);
    assert_eq!(src[151], 17);
    assert_eq!(src[255], 180);
}

#[test]
fn nonzero_seed_xors_every_entry() {
    let k = NoiseSimplex3d::new(1);
    let src = source_table();
    for i in 0..512 {
        assert_eq!(k.random[i], src[i % 256] ^ 1);
        assert_ne!(k.random[i], src[i % 256]);
    }
}

#[test]
fn seed_mix_folds_all_four_bytes() {
    let k = NoiseSimplex3d::new(0xA1B2_C3D4);
    let src = source_table();
    for i in 0..512 {
        assert_eq!(k.random[i], src[i % 256] ^ 0x04);
    }
}

#[test]
fn cancelling_seed_bytes_collapse_to_canonical() {
    // The two set bytes of this non-zero seed XOR to zero, so the table is
    // canonical again.
    let k = NoiseSimplex3d::new(0x0101_0000);
    let z = NoiseSimplex3d::new(0);
    assert_eq!(k.random, z.random);
}

#[test]
fn byte_position_does_not_matter_for_the_fold() {
    let a = NoiseSimplex3d::new(0x0000_00FF);
    let b = NoiseSimplex3d::new(0xFF00_0000);
    assert_eq!(a.random, b.random);
}

#[test]
fn kernel_construction_deterministic() {
    let a = NoiseSimplex3d::new(0xDEAD_BEEF);
    let b = NoiseSimplex3d::new(0xDEAD_BEEF);
    assert_eq!(a.random, b.random);
}

#[test]
fn default_kernel_is_zeroed() {
    let k = NoiseSimplex3d::default();
    assert!(k.random.iter().all(|&e| e == 0));
}

#[test]
fn table_halves_are_duplicates() {
    let k = NoiseSimplex3d::new(0x1234_5678);
    for i in 0..256 {
        assert_eq!(k.random[i], k.random[i + 256]);
    }
}

#[test]
fn grad_index_matches_chained_lookups() {
    let k = NoiseSimplex3d::new(0);
    let src = source_table();
    let t = |i: usize| -> usize { src[i % 256] as usize };
    let expect = |ii: usize, jj: usize, kk: usize, di: usize, dj: usize, dk: usize| -> usize {
        t(ii + di + t(jj + dj + t(kk + dk))) % 12
    };
    assert_eq!(k.grad_index(0, 0, 0, 0, 0, 0), expect(0, 0, 0, 0, 0, 0));
    assert_eq!(k.grad_index(0, 0, 0, 0, 0, 0), 0);
    assert_eq!(k.grad_index(0, 0, 0, 1, 1, 1), 3);
    assert_eq!(k.grad_index(10, 20, 30, 0, 1, 0), 9);
    assert_eq!(k.grad_index(255, 255, 255, 1, 1, 1), 0);
    for (ii, jj, kk) in [(3, 5, 7), (200, 100, 50), (255, 0, 128)] {
        for d in [(0, 0, 0), (1, 0, 0), (0, 1, 1), (1, 1, 1)] {
            assert_eq!(
                k.grad_index(ii, jj, kk, d.0, d.1, d.2),
                expect(ii, jj, kk, d.0, d.1, d.2)
            );
        }
    }
}

#[test]
fn gradient_directions_table() {
    let expected: [(i32, i32, i32); 12] = [
        (1, 1, 0),
        (-1, 1, 0),
        (1, -1, 0),
        (-1, -1, 0),
        (1, 0, 1),
        (-1, 0, 1),
        (1, 0, -1),
        (-1, 0, -1),
        (0, 1, 1),
        (0, -1, 1),
        (0, 1, -1),
        (0, -1, -1),
    ];
    for (gi, want) in expected.iter().enumerate() {
        assert_eq!(gradient(gi), *want);
    }
}

fn offsets(c: CornerOffsets) -> (u8, u8, u8, u8, u8, u8) {
    (c.i1, c.j1, c.k1, c.i2, c.j2, c.k2)
}

#[test]
fn corner_orderings_cover_all_six_tetrahedra() {
    // x >= y branch.
    assert_eq!(offsets(corner_offsets(true, true, true)), (1, 0, 0, 1, 1, 0));
    assert_eq!(offsets(corner_offsets(true, false, true)), (1, 0, 0, 1, 0, 1));
    assert_eq!(offsets(corner_offsets(true, false, false)), (0, 0, 1, 1, 0, 1));
    // x < y branch.
    assert_eq!(offsets(corner_offsets(false, false, true)), (0, 0, 1, 0, 1, 1));
    assert_eq!(offsets(corner_offsets(false, false, false)), (0, 0, 1, 0, 1, 1));
    assert_eq!(offsets(corner_offsets(false, true, false)), (0, 1, 0, 0, 1, 1));
    assert_eq!(offsets(corner_offsets(false, true, true)), (0, 1, 0, 1, 1, 0));
    // Contradictory comparison combination still selects per the branch
    // structure.
    assert_eq!(offsets(corner_offsets(true, true, false)), (1, 0, 0, 1, 1, 0));
}
