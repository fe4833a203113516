//! The seeded permutation-table kernel behind the simplex-noise evaluator.
//!
//! The kernel's integer state and integer decisions live here, fully
//! verified: building the 512-entry permutation table from a 32-bit seed,
//! choosing the tetrahedral corner ordering from the pairwise comparisons of
//! the cell-local offsets, and selecting a gradient direction by chained
//! table lookups. The surrounding real-valued arithmetic (skewing, falloff
//! terms, dot products) is left to the host, which feeds its comparison
//! results and cell indices into these functions.

use vstd::prelude::*;

verus! {

/// The canonical 256-entry source permutation, as a mathematical sequence.
pub open spec fn source_seq() -> Seq<u8> {
    seq![
        151u8, 160, 137, 91, 90, 15, 131, 13, 201, 95, 96, 53, 194, 233, 7, 225,
        140, 36, 103, 30, 69, 142, 8, 99, 37, 240, 21, 10, 23, 190, 6, 148,
        247, 120, 234, 75, 0, 26, 197, 62, 94, 252, 219, 203, 117, 35, 11, 32,
        57, 177, 33, 88, 237, 149, 56, 87, 174, 20, 125, 136, 171, 168, 68, 175,
        74, 165, 71, 134, 139, 48, 27, 166, 77, 146, 158, 231, 83, 111, 229, 122,
        60, 211, 133, 230, 220, 105, 92, 41, 55, 46, 245, 40, 244, 102, 143, 54,
        65, 25, 63, 161, 1, 216, 80, 73, 209, 76, 132, 187, 208, 89, 18, 169,
        200, 196, 135, 130, 116, 188, 159, 86, 164, 100, 109, 198, 173, 186, 3, 64,
        52, 217, 226, 250, 124, 123, 5, 202, 38, 147, 118, 126, 255, 82, 85, 212,
        207, 206, 59, 227, 47, 16, 58, 17, 182, 189, 28, 42, 223, 183, 170, 213,
        119, 248, 152, 2, 44, 154, 163, 70, 221, 153, 101, 155, 167, 43, 172, 9,
        129, 22, 39, 253, 19, 98, 108, 110, 79, 113, 224, 232, 178, 185, 112, 104,
        218, 246, 97, 228, 251, 34, 242, 193, 238, 210, 144, 12, 191, 179, 162, 241,
        81, 51, 145, 235, 249, 14, 239, 107, 49, 192, 214, 31, 181, 199, 106, 157,
        184, 84, 204, 176, 115, 121, 50, 45, 127, 4, 150, 254, 138, 236, 205, 93,
        222, 114, 67, 29, 24, 72, 243, 141, 128, 195, 78, 66, 215, 61, 156, 180,
    ]
}

/// The canonical 256-entry source permutation.
pub fn source_table() -> (t: [u8; 256])
    ensures
        t@ == source_seq(),
{
    let t: [u8; 256] = [
        151, 160, 137, 91, 90, 15, 131, 13, 201, 95, 96, 53, 194, 233, 7, 225,
        140, 36, 103, 30, 69, 142, 8, 99, 37, 240, 21, 10, 23, 190, 6, 148,
        247, 120, 234, 75, 0, 26, 197, 62, 94, 252, 219, 203, 117, 35, 11, 32,
        57, 177, 33, 88, 237, 149, 56, 87, 174, 20, 125, 136, 171, 168, 68, 175,
        74, 165, 71, 134, 139, 48, 27, 166, 77, 146, 158, 231, 83, 111, 229, 122,
        60, 211, 133, 230, 220, 105, 92, 41, 55, 46, 245, 40, 244, 102, 143, 54,
        65, 25, 63, 161, 1, 216, 80, 73, 209, 76, 132, 187, 208, 89, 18, 169,
        200, 196, 135, 130, 116, 188, 159, 86, 164, 100, 109, 198, 173, 186, 3, 64,
        52, 217, 226, 250, 124, 123, 5, 202, 38, 147, 118, 126, 255, 82, 85, 212,
        207, 206, 59, 227, 47, 16, 58, 17, 182, 189, 28, 42, 223, 183, 170, 213,
        119, 248, 152, 2, 44, 154, 163, 70, 221, 153, 101, 155, 167, 43, 172, 9,
        129, 22, 39, 253, 19, 98, 108, 110, 79, 113, 224, 232, 178, 185, 112, 104,
        218, 246, 97, 228, 251, 34, 242, 193, 238, 210, 144, 12, 191, 179, 162, 241,
        81, 51, 145, 235, 249, 14, 239, 107, 49, 192, 214, 31, 181, 199, 106, 157,
        184, 84, 204, 176, 115, 121, 50, 45, 127, 4, 150, 254, 138, 236, 205, 93,
        222, 114, 67, 29, 24, 72, 243, 141, 128, 195, 78, 66, 215, 61, 156, 180,
    ];
    assert(t@ =~= source_seq());
    t
}

/// The single byte that a seed XORs into every source entry: the fold of the
/// seed's four little-endian bytes.
pub open spec fn mix_spec(seed: u32) -> u8 {
    ((seed & 0xff) as u8) ^ (((seed >> 8) & 0xff) as u8) ^ (((seed >> 16) & 0xff) as u8) ^ ((
    seed >> 24) & 0xff) as u8
}

/// Entry `i` of the permutation table built from `seed`.
pub open spec fn perm_entry_spec(seed: u32, i: int) -> u8
    recommends
        0 <= i < 512,
{
    source_seq()[i % 256] ^ mix_spec(seed)
}

/// The full 512-entry permutation table built from `seed`: the canonical
/// source, each entry XORed with the folded seed bytes, duplicated twice.
pub open spec fn table_spec(seed: u32) -> Seq<u8> {
    Seq::new(512, |i: int| perm_entry_spec(seed, i))
}

/// Gradient-direction selection: chained lookups through the permutation
/// table, reduced modulo the twelve gradient directions. `ii`, `jj`, `kk`
/// are the masked base-cell coordinates and `di`, `dj`, `dk` the per-corner
/// integer offsets.
pub open spec fn grad_index_spec(t: Seq<u8>, ii: int, jj: int, kk: int, di: int, dj: int, dk: int) -> int
    recommends
        t.len() == 512,
        0 <= ii < 256,
        0 <= jj < 256,
        0 <= kk < 256,
        0 <= di <= 1,
        0 <= dj <= 1,
        0 <= dk <= 1,
{
    (t[ii + di + t[jj + dj + t[kk + dk]]] % 12) as int
}

/// One of the twelve gradient directions, each component in `{-1, 0, 1}`.
pub open spec fn grad3_spec(i: int) -> (int, int, int)
    recommends
        0 <= i < 12,
{
    if i == 0 { (1, 1, 0) }
    else if i == 1 { (-1, 1, 0) }
    else if i == 2 { (1, -1, 0) }
    else if i == 3 { (-1, -1, 0) }
    else if i == 4 { (1, 0, 1) }
    else if i == 5 { (-1, 0, 1) }
    else if i == 6 { (1, 0, -1) }
    else if i == 7 { (-1, 0, -1) }
    else if i == 8 { (0, 1, 1) }
    else if i == 9 { (0, -1, 1) }
    else if i == 10 { (0, 1, -1) }
    else { (0, -1, -1) }
}

/// The gradient direction selected by index `gi`.
pub fn gradient(gi: usize) -> (g: (i32, i32, i32))
    requires
        gi < 12,
    ensures
        (g.0 as int, g.1 as int, g.2 as int) == grad3_spec(gi as int),
{
    match gi {
        0 => (1, 1, 0),
        1 => (-1, 1, 0),
        2 => (1, -1, 0),
        3 => (-1, -1, 0),
        4 => (1, 0, 1),
        5 => (-1, 0, 1),
        6 => (1, 0, -1),
        7 => (-1, 0, -1),
        8 => (0, 1, 1),
        9 => (0, -1, 1),
        10 => (0, 1, -1),
        _ => (0, -1, -1),
    }
}

/// Integer offsets of the second and third simplex corners.
#[derive(Clone, Copy, Debug, PartialEq, Eq, Structural)]
pub struct CornerOffsets {
    pub i1: u8,
    pub j1: u8,
    pub k1: u8,
    pub i2: u8,
    pub j2: u8,
    pub k2: u8,
}

/// Which of the six tetrahedral orderings applies, from the pairwise
/// comparisons of the three cell-local offset components.
pub open spec fn corner_offsets_spec(x0_ge_y0: bool, y0_ge_z0: bool, x0_ge_z0: bool) -> CornerOffsets {
    if x0_ge_y0 {
        if y0_ge_z0 {
            CornerOffsets { i1: 1, j1: 0, k1: 0, i2: 1, j2: 1, k2: 0 }
        } else if x0_ge_z0 {
            CornerOffsets { i1: 1, j1: 0, k1: 0, i2: 1, j2: 0, k2: 1 }
        } else {
            CornerOffsets { i1: 0, j1: 0, k1: 1, i2: 1, j2: 0, k2: 1 }
        }
    } else {
        if !y0_ge_z0 {
            CornerOffsets { i1: 0, j1: 0, k1: 1, i2: 0, j2: 1, k2: 1 }
        } else if !x0_ge_z0 {
            CornerOffsets { i1: 0, j1: 1, k1: 0, i2: 0, j2: 1, k2: 1 }
        } else {
            CornerOffsets { i1: 0, j1: 1, k1: 0, i2: 1, j2: 1, k2: 0 }
        }
    }
}

/// Selects the tetrahedral corner ordering for one evaluation.
pub fn corner_offsets(x0_ge_y0: bool, y0_ge_z0: bool, x0_ge_z0: bool) -> (c: CornerOffsets)
    ensures
        c == corner_offsets_spec(x0_ge_y0, y0_ge_z0, x0_ge_z0),
        c.i1 <= 1 && c.j1 <= 1 && c.k1 <= 1 && c.i2 <= 1 && c.j2 <= 1 && c.k2 <= 1,
{
    if x0_ge_y0 {
        if y0_ge_z0 {
            CornerOffsets { i1: 1, j1: 0, k1: 0, i2: 1, j2: 1, k2: 0 }
        } else if x0_ge_z0 {
            CornerOffsets { i1: 1, j1: 0, k1: 0, i2: 1, j2: 0, k2: 1 }
        } else {
            CornerOffsets { i1: 0, j1: 0, k1: 1, i2: 1, j2: 0, k2: 1 }
        }
    } else {
        if !y0_ge_z0 {
            CornerOffsets { i1: 0, j1: 0, k1: 1, i2: 0, j2: 1, k2: 1 }
        } else if !x0_ge_z0 {
            CornerOffsets { i1: 0, j1: 1, k1: 0, i2: 0, j2: 1, k2: 1 }
        } else {
            CornerOffsets { i1: 0, j1: 1, k1: 0, i2: 1, j2: 1, k2: 0 }
        }
    }
}

/// The seeded permutation table that drives gradient selection.
#[derive(Clone, Copy, Debug)]
pub struct NoiseSimplex3d {
    pub random: [u8; 512],
}

impl Default for NoiseSimplex3d {
    fn default() -> (r: Self)
        ensures
            forall|i: int| 0 <= i < 512 ==> r.random@[i] == 0u8,
    {
        NoiseSimplex3d { random: [0u8; 512] }
    }
}

impl NoiseSimplex3d {
    /// Builds the permutation table for `seed`.
    pub fn new(seed: u32) -> (r: Self)
        ensures
            r.random@ == table_spec(seed),
    {
        let mut noise_gen = NoiseSimplex3d { random: [0u8; 512] };
        noise_gen.randomize(seed);
        noise_gen
    }

    /// Fills the table from `seed`: every canonical entry is XORed with the
    /// folded seed bytes and written to both halves.
    fn randomize(&mut self, seed: u32)
        ensures
            final(self).random@ == table_spec(seed),
    {
        let bytes = unpack_u32(seed);
        let m: u8 = bytes[0] ^ bytes[1] ^ bytes[2] ^ bytes[3];
        let src = source_table();
        let mut i: usize = 0;
        while i < 256
            invariant
                i <= 256,
                m == mix_spec(seed),
                src@ == source_seq(),
                forall|j: int| 0 <= j < i ==> self.random@[j] == perm_entry_spec(seed, j),
                forall|j: int| 0 <= j < i ==> #[trigger] self.random@[256 + j] == perm_entry_spec(seed, 256 + j),
            decreases 256 - i,
        {
            let v: u8 = src[i] ^ m;
            self.random[i] = v;
            self.random[i + 256] = v;
            i = i + 1;
        }
        assert forall|j: int| 0 <= j < 512 implies self.random@[j] == perm_entry_spec(seed, j) by {
            if j >= 256 {
                assert(self.random@[256 + (j - 256)] == perm_entry_spec(seed, 256 + (j - 256)));
            }
        }
        assert(self.random@ =~= table_spec(seed));
    }

    /// Chained permutation lookups choosing a gradient direction for one
    /// simplex corner.
    pub fn grad_index(&self, ii: usize, jj: usize, kk: usize, di: usize, dj: usize, dk: usize) -> (g: usize)
        requires
            ii < 256,
            jj < 256,
            kk < 256,
            di <= 1,
            dj <= 1,
            dk <= 1,
        ensures
            g == grad_index_spec(self.random@, ii as int, jj as int, kk as int, di as int, dj as int, dk as int),
            g < 12,
    {
        let a: u8 = self.random[kk + dk];
        let b: u8 = self.random[jj + dj + (a as usize)];
        let c: u8 = self.random[ii + di + (b as usize)];
        (c % 12) as usize
    }
}

/// The four bytes of a 32-bit seed, least-significant first.
fn unpack_u32(val: u32) -> (b: [u8; 4])
    ensures
        b@[0] == (val & 0xff) as u8,
        b@[1] == ((val >> 8) & 0xff) as u8,
        b@[2] == ((val >> 16) & 0xff) as u8,
        b@[3] == ((val >> 24) & 0xff) as u8,
{
    proof {
        assert((val & 0xff00) >> 8 == (val >> 8) & 0xff) by (bit_vector);
        assert((val & 0x00ff0000) >> 16 == (val >> 16) & 0xff) by (bit_vector);
        assert((val & 0xff000000) >> 24 == (val >> 24) & 0xff) by (bit_vector);
    }
    [
        (val & 0x00ff) as u8,
        ((val & 0xff00) >> 8) as u8,
        ((val & 0x00ff0000) >> 16) as u8,
        ((val & 0xff000000) >> 24) as u8,
    ]
}

/// The permutation table is a function of the seed alone: two tables built
/// from the same seed are identical, so the same seed always drives the same
/// gradient choices.
pub proof fn lemma_table_deterministic(a: NoiseSimplex3d, b: NoiseSimplex3d, seed: u32)
    requires
        a.random@ == table_spec(seed),
        b.random@ == table_spec(seed),
    ensures
        a.random@ == b.random@,
{
}

/// Seed zero reproduces the canonical source table exactly, duplicated into
/// both halves.
pub proof fn lemma_seed_zero_canonical()
    ensures
        forall|i: int| 0 <= i < 512 ==> table_spec(0)[i] == source_seq()[i % 256],
{
    assert(mix_spec(0) == 0) by (bit_vector);
    assert forall|i: int| 0 <= i < 512 implies table_spec(0)[i] == source_seq()[i % 256] by {
        let e = source_seq()[i % 256];
        assert(e ^ 0 == e) by (bit_vector);
    }
}

/// A seed perturbs every entry by the same XOR mask, so its table collapses
/// back to the canonical one exactly when the four seed bytes cancel to
/// zero; with any other mask every single entry differs.
pub proof fn lemma_table_collapse(seed: u32)
    ensures
        table_spec(seed) == table_spec(0) <==> mix_spec(seed) == 0,
        mix_spec(seed) != 0 ==> forall|i: int|
            0 <= i < 512 ==> #[trigger] table_spec(seed)[i] != table_spec(0)[i],
{
    if mix_spec(seed) != 0 {
        assert forall|i: int| 0 <= i < 512 implies #[trigger] table_spec(seed)[i]
            != table_spec(0)[i] by {
            let e = source_seq()[i % 256];
            let m = mix_spec(seed);
            assert(table_spec(seed)[i] == e ^ m);
            assert(mix_spec(0) == 0) by (bit_vector);
            assert(table_spec(0)[i] == e ^ 0);
            assert(m != 0 ==> e ^ m != e ^ 0) by (bit_vector);
        }
    }
    assert(mix_spec(0) == 0) by (bit_vector);
    if mix_spec(seed) == 0 {
        assert forall|i: int| 0 <= i < 512 implies table_spec(seed)[i] == table_spec(0)[i] by {
            let e = source_seq()[i % 256];
            let m = mix_spec(seed);
            assert(e ^ 0 == e) by (bit_vector);
            assert(e ^ m == e ^ 0);
        }
        assert(table_spec(seed) =~= table_spec(0));
    }
    if table_spec(seed) == table_spec(0) {
        let e = source_seq()[0];
        let m = mix_spec(seed);
        assert(table_spec(seed)[0] == e ^ m);
        assert(table_spec(0)[0] == e ^ 0);
        assert(e ^ m == e ^ 0 ==> m == 0) by (bit_vector);
    }
}

} // verus!
