//! Fractal filter and layer records.
//!
//! A [`NoiseFilter`] owns one seeded permutation kernel together with the
//! fractal parameters of its evaluation (octave count, strength, roughness,
//! lacunarity, persistence, offset, floor, centre, warp offset). A
//! [`NoiseLayer`] wraps a filter with the flags that steer how it takes part
//! in layer composition. The real-valued parameters are carried as opaque
//! bit patterns; this module pins down their construction, defaults and the
//! structural rules around them.

use vstd::prelude::*;

use crate::noise::NoiseSimplex3d;
use crate::noise::table_spec;
use crate::scalar::HALF_BITS;
use crate::scalar::HUNDRED_BITS;
use crate::scalar::NEG_HUNDRED_BITS;
use crate::scalar::ONE_BITS;
use crate::scalar::ScalarBits;
use crate::scalar::TWO_BITS;
use crate::scalar::Vec3Bits;
use crate::scalar::ZERO_BITS;

verus! {

/// The three filter variants. `Standard` accumulates plain fractal octaves,
/// `Rigid` sharpens ridges with a multiplicative weight feedback, and `Warp`
/// evaluates like `Standard` but only ever perturbs another layer's sample
/// point.
#[derive(Clone, Copy, Debug, PartialEq, Eq, Structural)]
pub enum NoiseFilterType {
    Standard,
    Rigid,
    Warp,
}

/// The numeric code of a filter variant in the packed record format.
pub open spec fn type_code_spec(ty: NoiseFilterType) -> u32 {
    match ty {
        NoiseFilterType::Standard => 0,
        NoiseFilterType::Rigid => 1,
        NoiseFilterType::Warp => 2,
    }
}

impl NoiseFilterType {
    /// The variant's numeric code in the packed record format.
    pub fn type_code(&self) -> (c: u32)
        ensures
            c == type_code_spec(*self),
    {
        match self {
            NoiseFilterType::Standard => 0,
            NoiseFilterType::Rigid => 1,
            NoiseFilterType::Warp => 2,
        }
    }
}

/// A fractal evaluator over one seeded kernel.
#[derive(Clone, Copy, Debug)]
pub struct NoiseFilter {
    /// The permutation kernel, rebuilt from `noise_seed` whenever the seed
    /// changes or the filter is restored from persisted state.
    pub simplex_3d: NoiseSimplex3d,
    /// The seed the kernel was (or must be) built from.
    pub noise_seed: u32,
    /// Which of the three variants the filter evaluates as.
    pub ty: NoiseFilterType,
    /// Number of fractal octaves; zero or fewer octaves accumulate nothing.
    pub num_octaves: i32,
    /// Multiplier applied to the accumulated octave sum.
    pub strength: ScalarBits,
    /// Base sampling frequency of the first octave.
    pub roughness: ScalarBits,
    /// Per-octave frequency multiplier.
    pub lacunarity: ScalarBits,
    /// Per-octave amplitude multiplier.
    pub persistence: ScalarBits,
    /// Subtracted from the scaled octave sum.
    pub offset: ScalarBits,
    /// Stored alongside the other parameters and mirrored into the packed
    /// record, but read by no evaluation path.
    pub floor: ScalarBits,
    /// Constant additive offset to every sampled point.
    pub center: Vec3Bits,
    /// When the filter acts as a warp source, each component in turn shifts
    /// the whole sample point for one scalar evaluation.
    pub warp_offset: Vec3Bits,
}

/// The filter's kernel is the one its seed prescribes.
pub open spec fn kernel_matches_seed(f: NoiseFilter) -> bool {
    f.simplex_3d.random@ == table_spec(f.noise_seed)
}

/// A freshly constructed filter: seeded kernel, `Standard` variant, one
/// octave, and the stock parameter defaults (strength one, roughness one,
/// lacunarity two, persistence one half, offset and floor zero, centre at
/// the origin, warp offset `(0, 100, -100)`).
pub open spec fn is_default_filter(f: NoiseFilter, seed: u32) -> bool {
    &&& kernel_matches_seed(f)
    &&& f.noise_seed == seed
    &&& f.ty == NoiseFilterType::Standard
    &&& f.num_octaves == 1
    &&& f.strength.bits == ONE_BITS
    &&& f.roughness.bits == ONE_BITS
    &&& f.lacunarity.bits == TWO_BITS
    &&& f.persistence.bits == HALF_BITS
    &&& f.offset.bits == ZERO_BITS
    &&& f.floor.bits == ZERO_BITS
    &&& f.center.is_zero()
    &&& f.warp_offset.x.bits == ZERO_BITS
    &&& f.warp_offset.y.bits == HUNDRED_BITS
    &&& f.warp_offset.z.bits == NEG_HUNDRED_BITS
}

impl NoiseFilter {
    /// A filter with the stock defaults and a kernel built from `seed`.
    pub fn new(seed: u32) -> (r: Self)
        ensures
            is_default_filter(r, seed),
    {
        NoiseFilter {
            simplex_3d: NoiseSimplex3d::new(seed),
            noise_seed: seed,
            ty: NoiseFilterType::Standard,
            num_octaves: 1,
            strength: ScalarBits { bits: ONE_BITS },
            roughness: ScalarBits { bits: ONE_BITS },
            lacunarity: ScalarBits { bits: TWO_BITS },
            persistence: ScalarBits { bits: HALF_BITS },
            offset: ScalarBits { bits: ZERO_BITS },
            floor: ScalarBits { bits: ZERO_BITS },
            center: Vec3Bits::zero(),
            warp_offset: Vec3Bits {
                x: ScalarBits { bits: ZERO_BITS },
                y: ScalarBits { bits: HUNDRED_BITS },
                z: ScalarBits { bits: NEG_HUNDRED_BITS },
            },
        }
    }

    /// Rebuilds the kernel from the stored seed, leaving every parameter in
    /// place. Restoring persisted state calls this for each layer, which is
    /// why persisting the seeds alone reproduces the elevations exactly.
    pub fn rebuild_kernel(&mut self)
        ensures
            kernel_matches_seed(*final(self)),
            params_eq(*final(self), *old(self)),
    {
        self.simplex_3d = NoiseSimplex3d::new(self.noise_seed);
    }
}

/// Everything of a filter except its kernel table: the state that persists.
pub open spec fn params_eq(a: NoiseFilter, b: NoiseFilter) -> bool {
    &&& a.noise_seed == b.noise_seed
    &&& a.ty == b.ty
    &&& a.num_octaves == b.num_octaves
    &&& a.strength == b.strength
    &&& a.roughness == b.roughness
    &&& a.lacunarity == b.lacunarity
    &&& a.persistence == b.persistence
    &&& a.offset == b.offset
    &&& a.floor == b.floor
    &&& a.center == b.center
    &&& a.warp_offset == b.warp_offset
}

/// One entry of the composition stack: a filter plus the flags that steer
/// its participation.
#[derive(Clone, Copy, Debug)]
pub struct NoiseLayer {
    /// The layer's fractal evaluator.
    pub filter: NoiseFilter,
    /// A warp layer never adds to the elevation sum; it perturbs the sample
    /// point of the layer `warp_target` names.
    pub is_warp: bool,
    /// One-based index of the layer this warp source perturbs; meaningful
    /// only while `is_warp` holds.
    pub warp_target: u32,
    /// When set, the layer's contribution is scaled by the sea-level mask
    /// derived from the base layer's value.
    pub first_layer_mask: bool,
    /// A disabled layer adds nothing to the elevation sum.
    pub enabled: bool,
}

/// A freshly constructed layer over the default filter for `seed`: no warp
/// role, target at the base layer, no masking.
pub open spec fn is_default_layer(l: NoiseLayer, seed: u32, enabled: bool) -> bool {
    &&& is_default_filter(l.filter, seed)
    &&& l.is_warp == false
    &&& l.warp_target == 1
    &&& l.first_layer_mask == false
    &&& l.enabled == enabled
}

impl NoiseLayer {
    /// A layer over the default filter for seed `i`.
    pub fn new(i: u32, enabled: bool) -> (r: Self)
        ensures
            is_default_layer(r, i, enabled),
    {
        NoiseLayer {
            filter: NoiseFilter::new(i),
            is_warp: false,
            warp_target: 1,
            first_layer_mask: false,
            enabled,
        }
    }

    /// Switches the filter variant, keeping the warp role in lockstep: a
    /// layer is a warp source exactly while its filter is the `Warp`
    /// variant.
    pub fn set_filter_type(&mut self, ty: NoiseFilterType)
        ensures
            final(self).filter.ty == ty,
            final(self).is_warp == (ty == NoiseFilterType::Warp),
            final(self).filter.simplex_3d == old(self).filter.simplex_3d,
            final(self).filter.noise_seed == old(self).filter.noise_seed,
            final(self).filter.num_octaves == old(self).filter.num_octaves,
            final(self).filter.strength == old(self).filter.strength,
            final(self).filter.roughness == old(self).filter.roughness,
            final(self).filter.lacunarity == old(self).filter.lacunarity,
            final(self).filter.persistence == old(self).filter.persistence,
            final(self).filter.offset == old(self).filter.offset,
            final(self).filter.floor == old(self).filter.floor,
            final(self).filter.center == old(self).filter.center,
            final(self).filter.warp_offset == old(self).filter.warp_offset,
            final(self).warp_target == old(self).warp_target,
            final(self).first_layer_mask == old(self).first_layer_mask,
            final(self).enabled == old(self).enabled,
    {
        let is_warp = match ty {
            NoiseFilterType::Warp => true,
            _ => false,
        };
        self.filter.ty = ty;
        self.is_warp = is_warp;
    }
}

} // verus!
