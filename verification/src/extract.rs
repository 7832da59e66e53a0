//! Per-view settings and the extraction decision: which views contribute a
//! uniform entry this frame, and how that entry is packed for the GPU.

use vstd::prelude::*;

use crate::params::BevySmaaMode;
use crate::params::SmaaShaderDefs;
use vstd::bytes::spec_u32_to_le_bytes;
use vstd::bytes::u32_to_le_bytes;

verus! {

/// Per-view component: attached to each camera, read once per frame by the
/// extraction step.
#[derive(Clone, Copy, Debug, PartialEq, Eq, Structural)]
pub struct SmaaSettings {
    /// Enable or disable the effect for this view.
    pub smaa_mode: BevySmaaMode,
}

impl Default for SmaaSettings {
    /// A freshly added view runs the effect.
    fn default() -> (r: SmaaSettings)
        ensures
            r.smaa_mode == BevySmaaMode::Smaa1X,
    {
        SmaaSettings { smaa_mode: BevySmaaMode::Smaa1X }
    }
}

/// The per-view record written into the shared per-frame uniform buffer:
/// the tunables the fragment stage reads at draw time. Fractional fields
/// keep the fixed-point thousandths representation of
/// [`SmaaShaderDefs`](crate::params::SmaaShaderDefs).
#[derive(Clone, Copy, Debug, PartialEq, Eq, Structural)]
pub struct SmaaUniform {
    /// Edge detection threshold, in thousandths.
    pub edge_threshold: u32,
    /// Depth edge detection threshold, in thousandths.
    pub depth_threshold: u32,
    /// Maximum horizontal/vertical search steps.
    pub max_search_steps: u32,
    /// Maximum diagonal search steps.
    pub max_search_steps_diagonal: u32,
    /// Corner rounding, in thousandths.
    pub corner_rounding: u32,
    /// Local contrast adaptation factor, in thousandths.
    pub local_contrast_adaptation_factor: u32,
}

/// The uniform record a parameter bundle extracts to.
pub open spec fn uniform_of(defs: SmaaShaderDefs) -> SmaaUniform {
    SmaaUniform {
        edge_threshold: defs.edge_threshold,
        depth_threshold: defs.depth_threshold,
        max_search_steps: defs.max_search_steps,
        max_search_steps_diagonal: defs.max_search_steps_diagonal,
        corner_rounding: defs.corner_rounding,
        local_contrast_adaptation_factor: defs.local_contrast_adaptation_factor,
    }
}

/// The extraction decision for one view: a disabled view contributes
/// nothing, an active one contributes the packed record of the current
/// parameter bundle.
pub open spec fn spec_extract(settings: SmaaSettings, defs: SmaaShaderDefs) -> Option<
    SmaaUniform,
> {
    if settings.smaa_mode == BevySmaaMode::Disabled {
        None
    } else {
        Some(uniform_of(defs))
    }
}

impl SmaaSettings {
    /// Decide, once per frame and per view, whether this view contributes a
    /// uniform entry: `None` exactly when the mode is `Disabled`, otherwise
    /// the record derived from `defs`.
    pub fn extract_component(&self, defs: &SmaaShaderDefs) -> (r: Option<SmaaUniform>)
        ensures
            r == spec_extract(*self, *defs),
    {
        if self.smaa_mode == BevySmaaMode::Disabled {
            return None;
        }
        Some(
            SmaaUniform {
                edge_threshold: defs.edge_threshold,
                depth_threshold: defs.depth_threshold,
                max_search_steps: defs.max_search_steps,
                max_search_steps_diagonal: defs.max_search_steps_diagonal,
                corner_rounding: defs.corner_rounding,
                local_contrast_adaptation_factor: defs.local_contrast_adaptation_factor,
            },
        )
    }
}

/// The uniform entries of a whole frame, in view order: exactly the views
/// whose mode is not `Disabled`, each with the record derived from `defs`.
pub open spec fn spec_extract_all(
    views: Seq<(u64, SmaaSettings)>,
    defs: SmaaShaderDefs,
) -> Seq<(u64, SmaaUniform)>
    decreases views.len(),
{
    if views.len() == 0 {
        Seq::empty()
    } else {
        let rest = spec_extract_all(views.drop_last(), defs);
        if views.last().1.smaa_mode == BevySmaaMode::Disabled {
            rest
        } else {
            rest.push((views.last().0, uniform_of(defs)))
        }
    }
}

/// Run the extraction decision over every view of a frame. The result
/// holds one entry per active view, in the order the views were given;
/// disabled views contribute nothing.
pub fn extract_all(views: &Vec<(u64, SmaaSettings)>, defs: &SmaaShaderDefs) -> (r: Vec<
    (u64, SmaaUniform),
>)
    ensures
        r@ == spec_extract_all(views@, *defs),
{
    let mut out: Vec<(u64, SmaaUniform)> = Vec::new();
    let mut i: usize = 0;
    while i < views.len()
        invariant
            i <= views@.len(),
            out@ == spec_extract_all(views@.take(i as int), *defs),
        decreases views@.len() - i,
    {
        proof {
            assert(views@.take((i + 1) as int).drop_last() =~= views@.take(i as int));
            assert(views@.take((i + 1) as int).last() == views@[i as int]);
        }
        let (id, settings) = views[i];
        if let Some(u) = settings.extract_component(defs) {
            out.push((id, u));
        }
        i += 1;
    }
    proof {
        assert(views@.take(views@.len() as int) =~= views@);
    }
    out
}

/// A view whose every occurrence is disabled never appears in the
/// extracted uniform entries of the frame.
pub proof fn lemma_disabled_view_extracts_nothing(
    views: Seq<(u64, SmaaSettings)>,
    defs: SmaaShaderDefs,
    view: u64,
)
    requires
        forall|i: int|
            0 <= i < views.len() && (#[trigger] views[i]).0 == view ==> views[i].1.smaa_mode
                == BevySmaaMode::Disabled,
    ensures
        forall|j: int|
            0 <= j < spec_extract_all(views, defs).len() ==> (#[trigger] spec_extract_all(
                views,
                defs,
            )[j]).0 != view,
    decreases views.len(),
{
    if views.len() > 0 {
        lemma_disabled_view_extracts_nothing(views.drop_last(), defs, view);
        let rest = spec_extract_all(views.drop_last(), defs);
        if views.last().1.smaa_mode != BevySmaaMode::Disabled {
            assert(views[views.len() - 1].0 != view);
            let whole = rest.push((views.last().0, uniform_of(defs)));
            assert forall|j: int| 0 <= j < whole.len() implies (#[trigger] whole[j]).0
                != view by {
                if j < rest.len() {
                    assert(whole[j] == rest[j]);
                }
            }
        }
    }
}

impl SmaaUniform {
    /// The tightly packed GPU layout of the record: each field as four
    /// little-endian bytes, in field order.
    pub open spec fn spec_bytes(self) -> Seq<u8> {
        spec_u32_to_le_bytes(self.edge_threshold) + spec_u32_to_le_bytes(self.depth_threshold)
            + spec_u32_to_le_bytes(self.max_search_steps) + spec_u32_to_le_bytes(
            self.max_search_steps_diagonal,
        ) + spec_u32_to_le_bytes(self.corner_rounding) + spec_u32_to_le_bytes(
            self.local_contrast_adaptation_factor,
        )
    }

    /// Pack the record for upload into the uniform buffer.
    pub fn to_bytes(&self) -> (r: Vec<u8>)
        ensures
            r@ == self.spec_bytes(),
            r@.len() == 24,
    {
        let mut out = u32_to_le_bytes(self.edge_threshold);
        let mut part = u32_to_le_bytes(self.depth_threshold);
        out.append(&mut part);
        let mut part = u32_to_le_bytes(self.max_search_steps);
        out.append(&mut part);
        let mut part = u32_to_le_bytes(self.max_search_steps_diagonal);
        out.append(&mut part);
        let mut part = u32_to_le_bytes(self.corner_rounding);
        out.append(&mut part);
        let mut part = u32_to_le_bytes(self.local_contrast_adaptation_factor);
        out.append(&mut part);
        out
    }
}

} // verus!
