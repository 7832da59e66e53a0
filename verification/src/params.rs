//! Quality preset table: maps the closed set of quality levels to concrete
//! tunable parameter bundles.
//!
//! Fractional tunables are stored in fixed point, in thousandths of a unit
//! (an `edge_threshold` of `150` stands for 0.150), so that every contract
//! stays in integer arithmetic. A host that feeds the values to a shader
//! divides by 1000 at the boundary.

use vstd::prelude::*;

verus! {

/// Closed set of quality levels selecting a parameter bundle.
#[derive(Clone, Copy, Debug, PartialEq, Eq, Hash, Structural)]
pub enum SmaaQuality {
    Low,
    Medium,
    High,
    Ultra,
    /// A hand-tuned bundle that follows no named preset.
    Custom,
}

/// Per-view toggle for the effect.
#[derive(Clone, Copy, Debug, PartialEq, Eq, Hash, Structural)]
pub enum BevySmaaMode {
    /// The effect is off for this view: extraction produces no uniform
    /// entry and the render node skips the view.
    Disabled,
    /// Single frame, no temporal supersampling.
    Smaa1X,
}

/// Upper bound on `edge_threshold`, in thousandths (0.5).
pub const EDGE_THRESHOLD_MAX: u32 = 500;

/// Upper bound on `max_search_steps`.
pub const MAX_SEARCH_STEPS_LIMIT: u32 = 112;

/// Upper bound on `max_search_steps_diagonal`.
pub const MAX_SEARCH_STEPS_DIAGONAL_LIMIT: u32 = 20;

/// Upper bound on `corner_rounding`, in thousandths (100).
pub const CORNER_ROUNDING_MAX: u32 = 100_000;

/// Lower bound on `local_contrast_adaptation_factor`, in thousandths (1.0).
pub const LOCAL_CONTRAST_FACTOR_MIN: u32 = 1_000;

/// Upper bound on `temporal_reprojection_weight_scale`, in thousandths (80).
pub const REPROJECTION_WEIGHT_SCALE_MAX: u32 = 80_000;

/// The tunable parameter bundle of the effect.
///
/// Thresholds and the other fractional tunables are in thousandths; step
/// counts are plain counts. The predication and temporal-reprojection
/// fields are reserved: they are stored and carried through, but no code
/// path of this crate acts on them.
#[derive(Clone, Copy, Debug, PartialEq, Eq, Structural)]
pub struct SmaaShaderDefs {
    /// The preset this bundle was derived from.
    pub quality: SmaaQuality,
    /// Sensitivity to edges, in thousandths; range `[0, 500]`. Lower values
    /// detect more edges at a performance cost.
    pub edge_threshold: u32,
    /// Threshold for depth edge detection, in thousandths. The default
    /// derivation is one tenth of `edge_threshold`.
    pub depth_threshold: u32,
    /// Maximum steps of the horizontal/vertical pattern searches, at each
    /// side of the pixel; range `[0, 112]`.
    pub max_search_steps: u32,
    /// Maximum steps of the diagonal pattern searches, at each side of the
    /// pixel; range `[0, 20]`.
    pub max_search_steps_diagonal: u32,
    /// Whether diagonal processing runs at all; when off, the shader
    /// permutation compiles the diagonal searches out.
    pub diag_detection: bool,
    /// How much sharp corners are rounded, in thousandths; range
    /// `[0, 100_000]`.
    pub corner_rounding: u32,
    /// Whether corner processing runs at all; when off, the shader
    /// permutation compiles the corner handling out.
    pub corner_detection: bool,
    /// An edge is discarded when a neighbor edge has this many times more
    /// contrast, in thousandths; at least 1.0.
    pub local_contrast_adaptation_factor: u32,
    /// Reserved: predicated thresholding against an auxiliary buffer.
    pub predication: bool,
    /// Reserved: threshold used in the predication buffer, in thousandths.
    pub predication_threshold: u32,
    /// Reserved: global threshold scale under predication, in thousandths.
    pub predication_scale: u32,
    /// Reserved: local threshold decrease under predication, in thousandths.
    pub predication_strength: u32,
    /// Reserved: temporal reprojection for temporal supersampling.
    pub temporal_reprojection: bool,
    /// Reserved: velocity weighting scale, in thousandths; range
    /// `[0, 80_000]`.
    pub temporal_reprojection_weight_scale: u32,
}

impl SmaaShaderDefs {
    /// Every numeric field sits inside its documented range.
    pub open spec fn wf(self) -> bool {
        &&& self.edge_threshold <= EDGE_THRESHOLD_MAX
        &&& self.max_search_steps <= MAX_SEARCH_STEPS_LIMIT
        &&& self.max_search_steps_diagonal <= MAX_SEARCH_STEPS_DIAGONAL_LIMIT
        &&& self.corner_rounding <= CORNER_ROUNDING_MAX
        &&& self.local_contrast_adaptation_factor >= LOCAL_CONTRAST_FACTOR_MIN
        &&& self.temporal_reprojection_weight_scale <= REPROJECTION_WEIGHT_SCALE_MAX
    }

    /// The bundle with each out-of-range numeric field moved to the nearest
    /// bound. Out-of-range input degrades the effect instead of being an
    /// error, so this crate chooses clamping over rejection; `clamped` is
    /// the executable form.
    pub open spec fn spec_clamped(self) -> SmaaShaderDefs {
        SmaaShaderDefs {
            quality: self.quality,
            edge_threshold: clamp_max(self.edge_threshold, EDGE_THRESHOLD_MAX),
            depth_threshold: self.depth_threshold,
            max_search_steps: clamp_max(self.max_search_steps, MAX_SEARCH_STEPS_LIMIT),
            max_search_steps_diagonal: clamp_max(
                self.max_search_steps_diagonal,
                MAX_SEARCH_STEPS_DIAGONAL_LIMIT,
            ),
            diag_detection: self.diag_detection,
            corner_rounding: clamp_max(self.corner_rounding, CORNER_ROUNDING_MAX),
            corner_detection: self.corner_detection,
            local_contrast_adaptation_factor: clamp_min(
                self.local_contrast_adaptation_factor,
                LOCAL_CONTRAST_FACTOR_MIN,
            ),
            predication: self.predication,
            predication_threshold: self.predication_threshold,
            predication_scale: self.predication_scale,
            predication_strength: self.predication_strength,
            temporal_reprojection: self.temporal_reprojection,
            temporal_reprojection_weight_scale: clamp_max(
                self.temporal_reprojection_weight_scale,
                REPROJECTION_WEIGHT_SCALE_MAX,
            ),
        }
    }

    /// Clamp every numeric field into its documented range; fields already
    /// in range come through unchanged, so a well-formed bundle is a fixed
    /// point of this function.
    pub fn clamped(self) -> (r: SmaaShaderDefs)
        ensures
            r == self.spec_clamped(),
            r.wf(),
    {
        SmaaShaderDefs {
            quality: self.quality,
            edge_threshold: if self.edge_threshold > EDGE_THRESHOLD_MAX {
                EDGE_THRESHOLD_MAX
            } else {
                self.edge_threshold
            },
            depth_threshold: self.depth_threshold,
            max_search_steps: if self.max_search_steps > MAX_SEARCH_STEPS_LIMIT {
                MAX_SEARCH_STEPS_LIMIT
            } else {
                self.max_search_steps
            },
            max_search_steps_diagonal: if self.max_search_steps_diagonal
                > MAX_SEARCH_STEPS_DIAGONAL_LIMIT {
                MAX_SEARCH_STEPS_DIAGONAL_LIMIT
            } else {
                self.max_search_steps_diagonal
            },
            diag_detection: self.diag_detection,
            corner_rounding: if self.corner_rounding > CORNER_ROUNDING_MAX {
                CORNER_ROUNDING_MAX
            } else {
                self.corner_rounding
            },
            corner_detection: self.corner_detection,
            local_contrast_adaptation_factor: if self.local_contrast_adaptation_factor
                < LOCAL_CONTRAST_FACTOR_MIN {
                LOCAL_CONTRAST_FACTOR_MIN
            } else {
                self.local_contrast_adaptation_factor
            },
            predication: self.predication,
            predication_threshold: self.predication_threshold,
            predication_scale: self.predication_scale,
            predication_strength: self.predication_strength,
            temporal_reprojection: self.temporal_reprojection,
            temporal_reprojection_weight_scale: if self.temporal_reprojection_weight_scale
                > REPROJECTION_WEIGHT_SCALE_MAX {
                REPROJECTION_WEIGHT_SCALE_MAX
            } else {
                self.temporal_reprojection_weight_scale
            },
        }
    }

    /// Whether every numeric field already sits inside its documented range.
    pub fn is_within_ranges(&self) -> (r: bool)
        ensures
            r == self.wf(),
    {
        self.edge_threshold <= EDGE_THRESHOLD_MAX && self.max_search_steps
            <= MAX_SEARCH_STEPS_LIMIT && self.max_search_steps_diagonal
            <= MAX_SEARCH_STEPS_DIAGONAL_LIMIT && self.corner_rounding <= CORNER_ROUNDING_MAX
            && self.local_contrast_adaptation_factor >= LOCAL_CONTRAST_FACTOR_MIN
            && self.temporal_reprojection_weight_scale <= REPROJECTION_WEIGHT_SCALE_MAX
    }
}

/// `v`, but at most `hi`.
pub open spec fn clamp_max(v: u32, hi: u32) -> u32 {
    if v > hi {
        hi
    } else {
        v
    }
}

/// `v`, but at least `lo`.
pub open spec fn clamp_min(v: u32, lo: u32) -> u32 {
    if v < lo {
        lo
    } else {
        v
    }
}

/// The `Low` preset: coarse edge detection, short searches, diagonal and
/// corner processing compiled out.
pub open spec fn low_preset() -> SmaaShaderDefs {
    SmaaShaderDefs {
        quality: SmaaQuality::Low,
        edge_threshold: 150,
        depth_threshold: 15,
        max_search_steps: 4,
        max_search_steps_diagonal: 8,
        diag_detection: false,
        corner_rounding: 25_000,
        corner_detection: false,
        local_contrast_adaptation_factor: 2_000,
        predication: false,
        predication_threshold: 10,
        predication_scale: 2_000,
        predication_strength: 400,
        temporal_reprojection: false,
        temporal_reprojection_weight_scale: 30_000,
    }
}

/// The `Medium` preset: the standard threshold with short searches,
/// diagonal and corner processing compiled out.
pub open spec fn medium_preset() -> SmaaShaderDefs {
    SmaaShaderDefs {
        quality: SmaaQuality::Medium,
        edge_threshold: 100,
        depth_threshold: 10,
        max_search_steps: 8,
        max_search_steps_diagonal: 8,
        diag_detection: false,
        corner_rounding: 25_000,
        corner_detection: false,
        local_contrast_adaptation_factor: 2_000,
        predication: false,
        predication_threshold: 10,
        predication_scale: 2_000,
        predication_strength: 400,
        temporal_reprojection: false,
        temporal_reprojection_weight_scale: 30_000,
    }
}

/// The `High` preset: the standard threshold, full searches, diagonal and
/// corner processing on.
pub open spec fn high_preset() -> SmaaShaderDefs {
    SmaaShaderDefs {
        quality: SmaaQuality::High,
        edge_threshold: 100,
        depth_threshold: 10,
        max_search_steps: 16,
        max_search_steps_diagonal: 8,
        diag_detection: true,
        corner_rounding: 25_000,
        corner_detection: true,
        local_contrast_adaptation_factor: 2_000,
        predication: false,
        predication_threshold: 10,
        predication_scale: 2_000,
        predication_strength: 400,
        temporal_reprojection: false,
        temporal_reprojection_weight_scale: 30_000,
    }
}

/// The `Ultra` preset: an overkill threshold that catches every visible
/// edge, with the longest searches.
pub open spec fn ultra_preset() -> SmaaShaderDefs {
    SmaaShaderDefs {
        quality: SmaaQuality::Ultra,
        edge_threshold: 50,
        depth_threshold: 5,
        max_search_steps: 32,
        max_search_steps_diagonal: 16,
        diag_detection: true,
        corner_rounding: 25_000,
        corner_detection: true,
        local_contrast_adaptation_factor: 2_000,
        predication: false,
        predication_threshold: 10,
        predication_scale: 2_000,
        predication_strength: 400,
        temporal_reprojection: false,
        temporal_reprojection_weight_scale: 30_000,
    }
}

/// The starting point for hand tuning: the `High` parameter values, tagged
/// `Custom`.
pub open spec fn custom_preset() -> SmaaShaderDefs {
    SmaaShaderDefs { quality: SmaaQuality::Custom, ..high_preset() }
}

/// Constructors for the named presets; modify the returned bundle for a
/// tuned variant, or keep it as is for the unmodified preset.
impl SmaaShaderDefs {
    /// The `Low` preset.
    pub fn low() -> (r: SmaaShaderDefs)
        ensures
            r == low_preset(),
    {
        SmaaShaderDefs {
            quality: SmaaQuality::Low,
            edge_threshold: 150,
            depth_threshold: 15,
            max_search_steps: 4,
            max_search_steps_diagonal: 8,
            diag_detection: false,
            corner_rounding: 25_000,
            corner_detection: false,
            local_contrast_adaptation_factor: 2_000,
            predication: false,
            predication_threshold: 10,
            predication_scale: 2_000,
            predication_strength: 400,
            temporal_reprojection: false,
            temporal_reprojection_weight_scale: 30_000,
        }
    }

    /// The `Medium` preset.
    pub fn medium() -> (r: SmaaShaderDefs)
        ensures
            r == medium_preset(),
    {
        SmaaShaderDefs {
            quality: SmaaQuality::Medium,
            edge_threshold: 100,
            depth_threshold: 10,
            max_search_steps: 8,
            max_search_steps_diagonal: 8,
            diag_detection: false,
            corner_rounding: 25_000,
            corner_detection: false,
            local_contrast_adaptation_factor: 2_000,
            predication: false,
            predication_threshold: 10,
            predication_scale: 2_000,
            predication_strength: 400,
            temporal_reprojection: false,
            temporal_reprojection_weight_scale: 30_000,
        }
    }

    /// The `High` preset.
    pub fn high() -> (r: SmaaShaderDefs)
        ensures
            r == high_preset(),
    {
        SmaaShaderDefs {
            quality: SmaaQuality::High,
            edge_threshold: 100,
            depth_threshold: 10,
            max_search_steps: 16,
            max_search_steps_diagonal: 8,
            diag_detection: true,
            corner_rounding: 25_000,
            corner_detection: true,
            local_contrast_adaptation_factor: 2_000,
            predication: false,
            predication_threshold: 10,
            predication_scale: 2_000,
            predication_strength: 400,
            temporal_reprojection: false,
            temporal_reprojection_weight_scale: 30_000,
        }
    }

    /// The `Ultra` preset.
    pub fn ultra() -> (r: SmaaShaderDefs)
        ensures
            r == ultra_preset(),
    {
        SmaaShaderDefs {
            quality: SmaaQuality::Ultra,
            edge_threshold: 50,
            depth_threshold: 5,
            max_search_steps: 32,
            max_search_steps_diagonal: 16,
            diag_detection: true,
            corner_rounding: 25_000,
            corner_detection: true,
            local_contrast_adaptation_factor: 2_000,
            predication: false,
            predication_threshold: 10,
            predication_scale: 2_000,
            predication_strength: 400,
            temporal_reprojection: false,
            temporal_reprojection_weight_scale: 30_000,
        }
    }
}

impl Default for SmaaShaderDefs {
    /// The hand-tuning starting point.
    fn default() -> (r: SmaaShaderDefs)
        ensures
            r == custom_preset(),
    {
        SmaaShaderDefs {
            quality: SmaaQuality::Custom,
            edge_threshold: 100,
            depth_threshold: 10,
            max_search_steps: 16,
            max_search_steps_diagonal: 8,
            diag_detection: true,
            corner_rounding: 25_000,
            corner_detection: true,
            local_contrast_adaptation_factor: 2_000,
            predication: false,
            predication_threshold: 10,
            predication_scale: 2_000,
            predication_strength: 400,
            temporal_reprojection: false,
            temporal_reprojection_weight_scale: 30_000,
        }
    }
}

/// Laws of the preset table: every named preset is well formed, derives its
/// depth threshold as one tenth of its edge threshold, and the search-step
/// budgets grow monotonically from `Low` to `Ultra`.
pub proof fn lemma_preset_table()
    ensures
        low_preset().wf(),
        medium_preset().wf(),
        high_preset().wf(),
        ultra_preset().wf(),
        custom_preset().wf(),
        10 * low_preset().depth_threshold == low_preset().edge_threshold,
        10 * medium_preset().depth_threshold == medium_preset().edge_threshold,
        10 * high_preset().depth_threshold == high_preset().edge_threshold,
        10 * ultra_preset().depth_threshold == ultra_preset().edge_threshold,
        low_preset().max_search_steps <= medium_preset().max_search_steps,
        medium_preset().max_search_steps <= high_preset().max_search_steps,
        high_preset().max_search_steps <= ultra_preset().max_search_steps,
        low_preset().max_search_steps_diagonal <= medium_preset().max_search_steps_diagonal,
        medium_preset().max_search_steps_diagonal <= high_preset().max_search_steps_diagonal,
        high_preset().max_search_steps_diagonal <= ultra_preset().max_search_steps_diagonal,
{
}

} // verus!
