//! Integration core for a single-pass, screen-space morphological
//! antialiasing (SMAA) post-process effect.
//!
//! The crate covers the machinery around the effect rather than the shader
//! itself: a quality preset table ([`params`]), a deterministic pipeline
//! specializer ([`pipeline`]), the per-view extraction decision and uniform
//! encoding ([`extract`]), and the per-frame render node with its
//! bind-group cache ([`node`]).
//!
//! The host engine is kept behind a narrow boundary: GPU resources appear
//! only as stable numeric identities (texture views, buffers, samplers,
//! bind-group layouts, compiled pipelines), and the render node returns the
//! draw it decided on as a plain [`node::DrawCommand`] value for the host's
//! render-pass runner to execute.

use vstd::prelude::*;

pub mod extract;
pub mod node;
pub mod params;
pub mod pipeline;

pub use extract::SmaaSettings;
pub use extract::SmaaUniform;
pub use node::SmaaNode;
pub use node::ViewSmaaPipeline;
pub use params::BevySmaaMode;
pub use params::SmaaQuality;
pub use params::SmaaShaderDefs;
pub use pipeline::SmaaPipeline;
pub use pipeline::SmaaPipelineKey;

verus! {

/// Marker for registering the effect with a host renderer.
///
/// Wiring the plugin into a concrete engine (adding the extraction step and
/// inserting the render node into the frame graph) is host-side work and
/// carries no logic of its own; the verified core consists of the modules
/// re-exported above.
pub struct SmaaPlugin;

} // verus!
