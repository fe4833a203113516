//! The layer-composition engine's structural core.
//!
//! A [`ShapeGenerator`] owns an ordered stack of noise layers and composes
//! them into an elevation field. Everything the composition decides with
//! integers and flags is verified here: configuration validation, the warp
//! plan (which enabled warp source perturbs which target layer), which
//! layers contribute to the elevation sum, which mask rule scales a
//! contribution, growing and shrinking the stack, and rebuilding every
//! kernel from its stored seed after state is restored. The host evaluates
//! the real-valued octave sums strictly along these decisions.

use vstd::pervasive::VecAdditionalExecFns;
use vstd::prelude::*;

use crate::noise_filter::NoiseLayer;
use crate::noise_filter::is_default_layer;
use crate::noise_filter::kernel_matches_seed;
use crate::noise_filter::params_eq;
use crate::scalar::ONE_BITS;
use crate::scalar::ScalarBits;

verus! {

/// Fixed capacity of the packed batch-evaluation record.
pub const MAX_NOISE_LAYERS: u32 = 16;

/// A structurally invalid configuration, rejected before composition.
#[derive(Clone, Copy, Debug, PartialEq, Eq, Structural)]
pub enum ConfigurationError {
    /// The layer list is empty.
    EmptyLayerList,
    /// The recorded layer count does not match the layer list.
    LayerCountMismatch,
    /// More layers than the packed record format can carry.
    TooManyLayers,
    /// A warp layer names a target outside `[1, layer_count]`.
    WarpTargetOutOfRange,
}

/// How a layer's contribution is scaled during composition.
#[derive(Clone, Copy, Debug, PartialEq, Eq, Structural)]
pub enum MaskRule {
    /// The contribution is taken as is; the sea level plays no part.
    Unmasked,
    /// The contribution is scaled by the sea-level ramp of the base layer's
    /// value: zero or `base - sea_level + 1`, whichever is greater.
    FirstLayerRamp,
}

/// One layer's resolved composition decisions: whether it adds to the
/// elevation sum, how its contribution is masked, and which enabled warp
/// source (if any) perturbs its sample point.
#[derive(Clone, Copy, Debug, PartialEq, Eq)]
pub struct LayerPlan {
    /// Whether the layer adds to the elevation sum.
    pub contributes: bool,
    /// The rule scaling the layer's contribution.
    pub mask: MaskRule,
    /// Index of the first enabled warp source targeting this layer.
    pub warp_source: Option<usize>,
}

/// The composition engine: global scaling, sea level, and the ordered layer
/// stack. Index 0 is the distinguished base layer.
#[derive(Clone, Debug)]
pub struct ShapeGenerator {
    /// Global radius factor: the final elevation is `radius * (1 + sum)`.
    pub radius: ScalarBits,
    /// Sea level consumed by the first-layer mask rule.
    pub sea_level: ScalarBits,
    /// Recorded layer count; valid configurations keep it equal to the
    /// length of `noise_layers`.
    pub num_layers: u32,
    /// The ordered layer stack.
    pub noise_layers: Vec<NoiseLayer>,
}

impl Default for ShapeGenerator {
    /// One enabled default layer with seed zero, radius one, sea level one.
    fn default() -> (r: Self)
        ensures
            r.radius.bits == ONE_BITS,
            r.sea_level.bits == ONE_BITS,
            r.num_layers == 1,
            r.noise_layers@.len() == 1,
            is_default_layer(r.noise_layers@[0], 0, true),
            r.wf(),
    {
        let mut noise_layers: Vec<NoiseLayer> = Vec::new();
        noise_layers.push(NoiseLayer::new(0, true));
        ShapeGenerator {
            radius: ScalarBits { bits: ONE_BITS },
            sea_level: ScalarBits { bits: ONE_BITS },
            num_layers: 1,
            noise_layers,
        }
    }
}

impl ShapeGenerator {
    /// A structurally valid configuration: the recorded count matches the
    /// stack, the stack is non-empty and within the packed capacity, and
    /// every warp layer's one-based target names a layer.
    pub open spec fn wf(self) -> bool {
        &&& self.noise_layers@.len() == self.num_layers
        &&& 1 <= self.num_layers <= MAX_NOISE_LAYERS
        &&& forall|i: int|
            0 <= i < self.noise_layers@.len() && (#[trigger] self.noise_layers@[i]).is_warp
                ==> 1 <= self.noise_layers@[i].warp_target <= self.num_layers
    }

    /// The error a structurally invalid configuration is rejected with.
    pub open spec fn config_error_spec(self) -> ConfigurationError
        recommends
            !self.wf(),
    {
        if self.noise_layers@.len() == 0 {
            ConfigurationError::EmptyLayerList
        } else if self.noise_layers@.len() != self.num_layers {
            ConfigurationError::LayerCountMismatch
        } else if self.num_layers > MAX_NOISE_LAYERS {
            ConfigurationError::TooManyLayers
        } else {
            ConfigurationError::WarpTargetOutOfRange
        }
    }

    /// Checks the configuration before composition: succeeds exactly on
    /// well-formed configurations and otherwise reports the first failure,
    /// never clamping and never indexing out of range.
    pub fn validate(&self) -> (r: Result<(), ConfigurationError>)
        ensures
            r is Ok <==> self.wf(),
            !self.wf() ==> r == Err::<(), ConfigurationError>(self.config_error_spec()),
    {
        let n = self.noise_layers.len();
        if n == 0 {
            return Err(ConfigurationError::EmptyLayerList);
        }
        if n != self.num_layers as usize {
            return Err(ConfigurationError::LayerCountMismatch);
        }
        if self.num_layers > MAX_NOISE_LAYERS {
            return Err(ConfigurationError::TooManyLayers);
        }
        let mut i: usize = 0;
        while i < n
            invariant
                i <= n,
                n == self.noise_layers@.len(),
                n == self.num_layers,
                1 <= self.num_layers <= MAX_NOISE_LAYERS,
                forall|j: int|
                    0 <= j < i && (#[trigger] self.noise_layers@[j]).is_warp
                        ==> 1 <= self.noise_layers@[j].warp_target <= self.num_layers,
            decreases n - i,
        {
            let l = &self.noise_layers[i];
            if l.is_warp && (l.warp_target < 1 || l.warp_target > self.num_layers) {
                return Err(ConfigurationError::WarpTargetOutOfRange);
            }
            i = i + 1;
        }
        Ok(())
    }

    /// The zero-based target layer perturbed by warp source `i`, or the
    /// layer count when layer `i` is no enabled warp source (a marker no
    /// layer index ever equals).
    pub open spec fn warp_marker_spec(self, i: int) -> int
        recommends
            0 <= i < self.noise_layers@.len(),
    {
        let l = self.noise_layers@[i];
        if l.is_warp && l.enabled {
            l.warp_target - 1
        } else {
            self.num_layers as int
        }
    }

    /// The warp source that perturbs layer `target`: the first enabled warp
    /// layer whose one-based target names it, if any.
    pub fn warp_source_for(&self, target: u32) -> (r: Option<usize>)
        requires
            self.wf(),
        ensures
            match r {
                Some(s) => {
                    &&& s < self.noise_layers@.len()
                    &&& self.warp_marker_spec(s as int) == target
                    &&& forall|j: int| 0 <= j < s ==> #[trigger] self.warp_marker_spec(j) != target
                },
                None => forall|j: int|
                    0 <= j < self.noise_layers@.len() ==> #[trigger] self.warp_marker_spec(j) != target,
            },
    {
        let n = self.noise_layers.len();
        let mut i: usize = 0;
        while i < n
            invariant
                i <= n,
                n == self.noise_layers@.len(),
                self.wf(),
                forall|j: int| 0 <= j < i ==> #[trigger] self.warp_marker_spec(j) != target,
            decreases n - i,
        {
            let l = &self.noise_layers[i];
            let marker: u32 = if l.is_warp && l.enabled {
                l.warp_target - 1
            } else {
                self.num_layers
            };
            if marker == target {
                return Some(i);
            }
            i = i + 1;
        }
        None
    }

    /// Whether layer `i` adds to the elevation sum. The base layer counts
    /// whenever it is enabled; every later layer counts only when enabled
    /// and not a warp source.
    pub open spec fn contributes_spec(self, i: int) -> bool
        recommends
            0 <= i < self.noise_layers@.len(),
    {
        if i == 0 {
            self.noise_layers@[0].enabled
        } else {
            self.noise_layers@[i].enabled && !self.noise_layers@[i].is_warp
        }
    }

    /// Whether layer `i` adds to the elevation sum.
    pub fn layer_contributes(&self, i: usize) -> (b: bool)
        requires
            i < self.noise_layers@.len(),
        ensures
            b == self.contributes_spec(i as int),
    {
        let l = &self.noise_layers[i];
        if i == 0 {
            l.enabled
        } else {
            l.enabled && !l.is_warp
        }
    }

    /// The mask rule scaling layer `i`'s contribution.
    pub fn mask_rule(&self, i: usize) -> (r: MaskRule)
        requires
            i < self.noise_layers@.len(),
        ensures
            r == mask_rule_spec(self.noise_layers@[i as int]),
    {
        if self.noise_layers[i].first_layer_mask {
            MaskRule::FirstLayerRamp
        } else {
            MaskRule::Unmasked
        }
    }

    /// Appends a fresh disabled layer whose seed is the new layer count.
    pub fn add_layer(&mut self)
        requires
            old(self).num_layers < u32::MAX,
        ensures
            final(self).num_layers == old(self).num_layers + 1,
            final(self).noise_layers@.len() == old(self).noise_layers@.len() + 1,
            forall|i: int|
                0 <= i < old(self).noise_layers@.len()
                    ==> final(self).noise_layers@[i] == old(self).noise_layers@[i],
            is_default_layer(
                final(self).noise_layers@[old(self).noise_layers@.len() as int],
                (old(self).num_layers + 1) as u32,
                false,
            ),
            final(self).radius == old(self).radius,
            final(self).sea_level == old(self).sea_level,
    {
        self.num_layers = self.num_layers + 1;
        let num_layers = self.num_layers;
        self.noise_layers.push(NoiseLayer::new(num_layers, false));
    }

    /// Removes the last layer; the stack never shrinks below one layer.
    pub fn remove_layer(&mut self)
        requires
            old(self).num_layers > 1,
            old(self).noise_layers@.len() == old(self).num_layers,
        ensures
            final(self).num_layers == old(self).num_layers - 1,
            final(self).noise_layers@ == old(self).noise_layers@.drop_last(),
            final(self).radius == old(self).radius,
            final(self).sea_level == old(self).sea_level,
    {
        self.num_layers = self.num_layers - 1;
        let _popped = self.noise_layers.pop();
    }

    /// Entry `i` of a composition plan is faithful: it records whether
    /// layer `i` contributes, which mask rule scales it, and the first
    /// enabled warp source targeting it, if any.
    pub open spec fn plan_entry_ok(self, i: int, p: LayerPlan) -> bool
        recommends
            0 <= i < self.noise_layers@.len(),
    {
        &&& p.contributes == self.contributes_spec(i)
        &&& p.mask == mask_rule_spec(self.noise_layers@[i])
        &&& match p.warp_source {
            Some(s) => {
                &&& s < self.noise_layers@.len()
                &&& self.warp_marker_spec(s as int) == i
                &&& forall|j: int| 0 <= j < s ==> #[trigger] self.warp_marker_spec(j) != i
            },
            None => forall|j: int|
                0 <= j < self.noise_layers@.len() ==> #[trigger] self.warp_marker_spec(j) != i,
        }
    }

    /// Resolves the whole composition up front: one faithful plan entry per
    /// layer, computed only for well-formed configurations and otherwise
    /// rejected with the same error `validate` reports. A host evaluates
    /// the real-valued octave sums strictly along this plan.
    pub fn composition_plan(&self) -> (r: Result<Vec<LayerPlan>, ConfigurationError>)
        ensures
            r is Ok <==> self.wf(),
            !self.wf() ==> r == Err::<Vec<LayerPlan>, ConfigurationError>(
                self.config_error_spec(),
            ),
            r matches Ok(v) ==> {
                &&& v@.len() == self.noise_layers@.len()
                &&& forall|i: int|
                    0 <= i < v@.len() ==> self.plan_entry_ok(i, #[trigger] v@[i])
            },
    {
        if let Err(e) = self.validate() {
            return Err(e);
        }
        let n = self.noise_layers.len();
        let mut plan: Vec<LayerPlan> = Vec::new();
        let mut i: usize = 0;
        while i < n
            invariant
                i <= n,
                n == self.noise_layers@.len(),
                self.wf(),
                plan@.len() == i,
                forall|k: int| 0 <= k < i ==> self.plan_entry_ok(k, #[trigger] plan@[k]),
            decreases n - i,
        {
            let entry = LayerPlan {
                contributes: self.layer_contributes(i),
                mask: self.mask_rule(i),
                warp_source: self.warp_source_for(i as u32),
            };
            plan.push(entry);
            i = i + 1;
        }
        Ok(plan)
    }

    /// Every layer's kernel is the one its stored seed prescribes.
    pub open spec fn kernels_consistent(self) -> bool {
        forall|i: int|
            0 <= i < self.noise_layers@.len()
                ==> kernel_matches_seed((#[trigger] self.noise_layers@[i]).filter)
    }

    /// Rebuilds every layer's kernel from its stored seed, leaving all
    /// persisted state in place. Restoring a deserialized generator runs
    /// this, so elevations reproduce exactly from the seeds alone.
    pub fn rebuild_kernels(&mut self)
        ensures
            final(self).radius == old(self).radius,
            final(self).sea_level == old(self).sea_level,
            final(self).num_layers == old(self).num_layers,
            final(self).noise_layers@.len() == old(self).noise_layers@.len(),
            forall|i: int|
                0 <= i < old(self).noise_layers@.len()
                    ==> layer_persistent_eq(
                    #[trigger] final(self).noise_layers@[i],
                    old(self).noise_layers@[i],
                ),
            final(self).kernels_consistent(),
    {
        let n = self.noise_layers.len();
        let mut i: usize = 0;
        while i < n
            invariant
                i <= n,
                n == self.noise_layers@.len(),
                self.radius == old(self).radius,
                self.sea_level == old(self).sea_level,
                self.num_layers == old(self).num_layers,
                self.noise_layers@.len() == old(self).noise_layers@.len(),
                forall|j: int|
                    i <= j < self.noise_layers@.len()
                        ==> #[trigger] self.noise_layers@[j] == old(self).noise_layers@[j],
                forall|j: int|
                    0 <= j < i
                        ==> layer_persistent_eq(
                        #[trigger] self.noise_layers@[j],
                        old(self).noise_layers@[j],
                    ),
                forall|j: int|
                    0 <= j < i ==> kernel_matches_seed((#[trigger] self.noise_layers@[j]).filter),
            decreases n - i,
        {
            let mut l = self.noise_layers[i];
            l.filter.rebuild_kernel();
            self.noise_layers.set(i, l);
            i = i + 1;
        }
    }
}

/// The mask rule a layer opts into.
pub open spec fn mask_rule_spec(l: NoiseLayer) -> MaskRule {
    if l.first_layer_mask {
        MaskRule::FirstLayerRamp
    } else {
        MaskRule::Unmasked
    }
}

/// Everything of a layer except its kernel table: the state that persists.
pub open spec fn layer_persistent_eq(a: NoiseLayer, b: NoiseLayer) -> bool {
    &&& params_eq(a.filter, b.filter)
    &&& a.is_warp == b.is_warp
    &&& a.warp_target == b.warp_target
    &&& a.first_layer_mask == b.first_layer_mask
    &&& a.enabled == b.enabled
}

/// A warp layer above the base never adds to the elevation sum, even while
/// enabled; its value only ever perturbs its target's sample point. (The
/// base layer is the one exception: it seeds the accumulator whenever it is
/// enabled, warp role or not.)
pub proof fn lemma_warp_layer_never_contributes(g: ShapeGenerator, i: int)
    requires
        1 <= i < g.noise_layers@.len(),
        g.noise_layers@[i].is_warp,
    ensures
        !g.contributes_spec(i),
{
}

/// A layer that does not opt into the first-layer mask is composed
/// unmasked: its rule is `Unmasked`, which scales by one independently of
/// the sea level or the base layer's value.
pub proof fn lemma_no_mask_flag_unmasked(l: NoiseLayer)
    requires
        !l.first_layer_mask,
    ensures
        mask_rule_spec(l) == MaskRule::Unmasked,
{
}

/// The warp plan reads only each layer's warp role, enabled flag and
/// target. Two stacks agreeing on those flags produce identical plans, so
/// editing a warp source's filter (its warp offset in particular) can only
/// change the sample point of its designated target layer.
pub proof fn lemma_warp_plan_ignores_filters(a: ShapeGenerator, b: ShapeGenerator)
    requires
        a.num_layers == b.num_layers,
        a.noise_layers@.len() == b.noise_layers@.len(),
        forall|i: int|
            0 <= i < a.noise_layers@.len()
                ==> {
                &&& (#[trigger] a.noise_layers@[i]).is_warp == b.noise_layers@[i].is_warp
                &&& a.noise_layers@[i].enabled == b.noise_layers@[i].enabled
                &&& a.noise_layers@[i].warp_target == b.noise_layers@[i].warp_target
            },
    ensures
        forall|i: int|
            0 <= i < a.noise_layers@.len()
                ==> #[trigger] a.warp_marker_spec(i) == b.warp_marker_spec(i),
{
}

/// The persisted seeds pin the kernels: two generators whose layers carry
/// the same seeds hold identical permutation tables once both are
/// consistent with their seeds — the heart of the persistence round trip.
pub proof fn lemma_kernels_determined_by_seeds(a: ShapeGenerator, b: ShapeGenerator)
    requires
        a.noise_layers@.len() == b.noise_layers@.len(),
        forall|i: int|
            0 <= i < a.noise_layers@.len()
                ==> (#[trigger] a.noise_layers@[i]).filter.noise_seed
                    == b.noise_layers@[i].filter.noise_seed,
        a.kernels_consistent(),
        b.kernels_consistent(),
    ensures
        forall|i: int|
            0 <= i < a.noise_layers@.len()
                ==> (#[trigger] a.noise_layers@[i]).filter.simplex_3d.random@
                    == b.noise_layers@[i].filter.simplex_3d.random@,
{
}

} // verus!
