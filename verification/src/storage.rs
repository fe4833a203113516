//! The flat record format for batch evaluation.
//!
//! A separate execution target re-expresses the generator as a fixed
//! sixteen-slot array of flat records, one per layer: the 512-entry
//! permutation table widened to 32-bit integers, the filter variant as a
//! numeric code, the fractal parameters, and the composition flags. This
//! module builds that array and proves it mirrors the structural model
//! exactly, slot for slot and entry for entry.

use vstd::prelude::*;

use crate::noise_filter::NoiseLayer;
use crate::noise_filter::type_code_spec;
use crate::scalar::ScalarBits;
use crate::scalar::Vec3Bits;
use crate::scalar::ZERO_BITS;
use crate::shape::ConfigurationError;
use crate::shape::MAX_NOISE_LAYERS;
use crate::shape::ShapeGenerator;

verus! {

/// One flat record of the batch-evaluation format.
#[derive(Clone, Copy, Debug)]
pub struct NoiseLayerStorage {
    /// The layer's 512-entry permutation table, widened to 32-bit entries.
    pub simplex_random: [i32; 512],
    /// Numeric code of the filter variant.
    pub filter_type: u32,
    /// Number of fractal octaves.
    pub num_octaves: i32,
    /// Multiplier applied to the accumulated octave sum.
    pub strength: ScalarBits,
    /// Base sampling frequency of the first octave.
    pub roughness: ScalarBits,
    /// Per-octave frequency multiplier.
    pub lacunarity: ScalarBits,
    /// Per-octave amplitude multiplier.
    pub persistence: ScalarBits,
    /// Subtracted from the scaled octave sum.
    pub offset: ScalarBits,
    /// Mirrored from the filter; read by no evaluation path.
    pub floor: ScalarBits,
    /// Constant additive offset to every sampled point.
    pub center: Vec3Bits,
    /// One-based warp target index, widened to a signed entry.
    pub warp_target: i32,
    /// Warp shift components of the layer's filter.
    pub warp_offset: Vec3Bits,
    /// One when the layer opts into the first-layer mask, zero otherwise.
    pub first_layer_mask: i32,
}

/// An all-zero record: the content of every slot past the packed layers.
pub open spec fn is_zero_storage(s: NoiseLayerStorage) -> bool {
    &&& forall|j: int| 0 <= j < 512 ==> s.simplex_random@[j] == 0i32
    &&& s.filter_type == 0
    &&& s.num_octaves == 0
    &&& s.strength.bits == ZERO_BITS
    &&& s.roughness.bits == ZERO_BITS
    &&& s.lacunarity.bits == ZERO_BITS
    &&& s.persistence.bits == ZERO_BITS
    &&& s.offset.bits == ZERO_BITS
    &&& s.floor.bits == ZERO_BITS
    &&& s.center.is_zero()
    &&& s.warp_target == 0
    &&& s.warp_offset.is_zero()
    &&& s.first_layer_mask == 0
}

/// Record `s` carries exactly the state of layer `l`.
pub open spec fn storage_matches(s: NoiseLayerStorage, l: NoiseLayer) -> bool {
    &&& forall|j: int| 0 <= j < 512 ==> s.simplex_random@[j] == l.filter.simplex_3d.random@[j] as i32
    &&& s.filter_type == type_code_spec(l.filter.ty)
    &&& s.num_octaves == l.filter.num_octaves
    &&& s.strength == l.filter.strength
    &&& s.roughness == l.filter.roughness
    &&& s.lacunarity == l.filter.lacunarity
    &&& s.persistence == l.filter.persistence
    &&& s.offset == l.filter.offset
    &&& s.floor == l.filter.floor
    &&& s.center == l.filter.center
    &&& s.warp_target == l.warp_target as i32
    &&& s.warp_offset == l.filter.warp_offset
    &&& s.first_layer_mask == (if l.first_layer_mask { 1i32 } else { 0i32 })
}

impl Default for NoiseLayerStorage {
    /// The all-zero record.
    fn default() -> (r: Self)
        ensures
            is_zero_storage(r),
    {
        NoiseLayerStorage {
            simplex_random: [0i32; 512],
            filter_type: 0,
            num_octaves: 0,
            strength: ScalarBits { bits: ZERO_BITS },
            roughness: ScalarBits { bits: ZERO_BITS },
            lacunarity: ScalarBits { bits: ZERO_BITS },
            persistence: ScalarBits { bits: ZERO_BITS },
            offset: ScalarBits { bits: ZERO_BITS },
            floor: ScalarBits { bits: ZERO_BITS },
            center: Vec3Bits::zero(),
            warp_target: 0,
            warp_offset: Vec3Bits::zero(),
            first_layer_mask: 0,
        }
    }
}

/// The layer's permutation table, widened entry for entry.
fn table_to_i32(t: &[u8; 512]) -> (r: [i32; 512])
    ensures
        forall|j: int| 0 <= j < 512 ==> r@[j] == t@[j] as i32,
{
    let mut r: [i32; 512] = [0i32; 512];
    let mut j: usize = 0;
    while j < 512
        invariant
            j <= 512,
            forall|k: int| 0 <= k < j ==> r@[k] == t@[k] as i32,
        decreases 512 - j,
    {
        r[j] = t[j] as i32;
        j = j + 1;
    }
    r
}

/// Packs the generator into the fixed sixteen-slot record array: the first
/// `num_layers` slots mirror the layers in order and every remaining slot
/// is all zero. A structurally invalid generator is rejected with the same
/// error `validate` reports.
pub fn pack_noise_layers(shape_gen: &ShapeGenerator) -> (r: Result<
    Vec<NoiseLayerStorage>,
    ConfigurationError,
>)
    ensures
        r is Ok <==> shape_gen.wf(),
        !shape_gen.wf() ==> r == Err::<Vec<NoiseLayerStorage>, ConfigurationError>(
            shape_gen.config_error_spec(),
        ),
        r matches Ok(v) ==> {
            &&& v@.len() == MAX_NOISE_LAYERS
            &&& forall|i: int|
                0 <= i < shape_gen.num_layers
                    ==> storage_matches(#[trigger] v@[i], shape_gen.noise_layers@[i])
            &&& forall|i: int|
                shape_gen.num_layers <= i < MAX_NOISE_LAYERS ==> is_zero_storage(#[trigger] v@[i])
        },
{
    if let Err(e) = shape_gen.validate() {
        return Err(e);
    }
    let n = shape_gen.noise_layers.len();
    let mut out: Vec<NoiseLayerStorage> = Vec::new();
    let mut i: usize = 0;
    while i < n
        invariant
            i <= n,
            n == shape_gen.noise_layers@.len(),
            n == shape_gen.num_layers,
            out@.len() == i,
            forall|k: int|
                0 <= k < i ==> storage_matches(#[trigger] out@[k], shape_gen.noise_layers@[k]),
        decreases n - i,
    {
        let l = &shape_gen.noise_layers[i];
        let table = table_to_i32(&l.filter.simplex_3d.random);
        out.push(NoiseLayerStorage {
            simplex_random: table,
            filter_type: l.filter.ty.type_code(),
            num_octaves: l.filter.num_octaves,
            strength: l.filter.strength,
            roughness: l.filter.roughness,
            lacunarity: l.filter.lacunarity,
            persistence: l.filter.persistence,
            offset: l.filter.offset,
            floor: l.filter.floor,
            center: l.filter.center,
            warp_target: l.warp_target as i32,
            warp_offset: l.filter.warp_offset,
            first_layer_mask: if l.first_layer_mask {
                1
            } else {
                0
            },
        });
        i = i + 1;
    }
    while out.len() < MAX_NOISE_LAYERS as usize
        invariant
            n == shape_gen.noise_layers@.len(),
            n == shape_gen.num_layers,
            n <= out@.len() <= MAX_NOISE_LAYERS,
            forall|k: int|
                0 <= k < n ==> storage_matches(#[trigger] out@[k], shape_gen.noise_layers@[k]),
            forall|k: int| n <= k < out@.len() ==> is_zero_storage(#[trigger] out@[k]),
        decreases MAX_NOISE_LAYERS - out@.len(),
    {
        out.push(NoiseLayerStorage::default());
    }
    Ok(out)
}

} // verus!
