//! Pipeline specialization: turn a small key of compile-time-fixed
//! choices into a full render-pipeline description.
//!
//! GPU objects appear only as stable numeric identities here: the host's
//! pipeline cache compiles the returned description into a real pipeline
//! and deduplicates repeated identical descriptions by key equality, which
//! the determinism law at the bottom of this module underwrites.

use vstd::prelude::*;

verus! {

/// Stable handle of the effect's fragment shader module. The module
/// exposes exactly one fragment entry point, named `fragment`.
pub const SMAA_SHADER_HANDLE: u64 = 224869679984874407;

/// Stable handle of the shared full-screen-triangle vertex shader module
/// used by every screen-space pass; the effect has no vertex buffers.
pub const FULLSCREEN_SHADER_HANDLE: u64 = 7837534426033940724;

/// Write mask enabling all four color channels.
pub const COLOR_WRITES_ALL: u32 = 0xF;

/// The color formats a view's render target can take.
#[derive(Clone, Copy, Debug, PartialEq, Eq, Hash, Structural)]
pub enum TextureFormat {
    Rgba8Unorm,
    Rgba8UnormSrgb,
    Bgra8Unorm,
    Bgra8UnormSrgb,
    Rgb10a2Unorm,
}

/// Compile-time shader-permutation flags: the closed set of feature
/// toggles that change the generated shader code and therefore go through
/// the pipeline key rather than the uniform buffer.
#[derive(Clone, Copy, Debug, PartialEq, Eq, Structural)]
pub enum PermutationFlag {
    /// Compile the diagonal pattern searches out.
    DisableDiagonalDetection,
    /// Compile the corner handling out.
    DisableCornerDetection,
}

/// The specialization key: everything that forces a distinct compiled
/// pipeline variant. Cheap per-frame tunables stay out of the key and go
/// through the uniform buffer instead; extend the key, not the pipeline
/// object, when adding shader permutations.
#[derive(Clone, Copy, Debug, PartialEq, Eq, Hash, Structural)]
pub struct SmaaPipelineKey {
    /// Color format of the view's render target.
    pub texture_format: TextureFormat,
    /// Whether the variant performs diagonal pattern searches.
    pub diag_detection: bool,
    /// Whether the variant performs corner processing.
    pub corner_detection: bool,
}

impl SmaaPipelineKey {
    /// The key a parameter bundle asks for when rendering into `format`:
    /// the boolean feature toggles of the bundle become permutation
    /// choices, everything else stays uniform data.
    pub fn from_defs(format: TextureFormat, defs: &crate::params::SmaaShaderDefs) -> (r:
        SmaaPipelineKey)
        ensures
            r.texture_format == format,
            r.diag_detection == defs.diag_detection,
            r.corner_detection == defs.corner_detection,
    {
        SmaaPipelineKey {
            texture_format: format,
            diag_detection: defs.diag_detection,
            corner_detection: defs.corner_detection,
        }
    }
}

/// Blend modes a color target could select; the effect writes its result
/// without blending, so its own targets carry `None`.
#[derive(Clone, Copy, Debug, PartialEq, Eq, Structural)]
pub enum BlendMode {
    AlphaBlending,
    PremultipliedAlphaBlending,
}

/// One color output of the pipeline.
#[derive(Clone, Copy, Debug, PartialEq, Eq)]
pub struct ColorTargetState {
    pub format: TextureFormat,
    pub blend: Option<BlendMode>,
    pub write_mask: u32,
}

/// The vertex stage of the pipeline.
#[derive(Clone, Copy, Debug, PartialEq, Eq)]
pub struct VertexState {
    /// Handle of the shader module holding the vertex entry point.
    pub shader: u64,
    pub entry_point: &'static str,
}

/// The fragment stage of the pipeline.
#[derive(Clone, Debug, PartialEq, Eq)]
pub struct FragmentState {
    /// Handle of the shader module holding the fragment entry point.
    pub shader: u64,
    /// Permutation flags baked into this variant's shader code.
    pub shader_defs: Vec<PermutationFlag>,
    pub entry_point: &'static str,
    pub targets: Vec<ColorTargetState>,
}

/// Primitive assembly of the pipeline; the default draws plain triangle
/// lists.
#[derive(Clone, Copy, Debug, PartialEq, Eq, Structural)]
pub enum PrimitiveTopology {
    TriangleList,
    TriangleStrip,
}

/// A complete render-pipeline description, ready for a pipeline cache to
/// compile and deduplicate.
#[derive(Clone, Debug, PartialEq, Eq)]
pub struct RenderPipelineDescriptor {
    /// Debug label; fixed, so equal keys give byte-identical descriptions.
    pub label: Option<&'static str>,
    /// Bind-group layouts, by stable identity.
    pub layout: Vec<u64>,
    pub vertex: VertexState,
    pub fragment: Option<FragmentState>,
    pub topology: PrimitiveTopology,
    /// Depth format when depth/stencil is used; the effect uses none.
    pub depth_stencil: Option<TextureFormat>,
    /// Samples per pixel; 1 is the single-sample default.
    pub multisample_count: u32,
    /// Push-constant range sizes; the effect declares none.
    pub push_constant_ranges: Vec<u32>,
}

/// The permutation flags a key selects, in a fixed order.
pub open spec fn spec_permutation_flags(key: SmaaPipelineKey) -> Seq<PermutationFlag> {
    let diag = if key.diag_detection {
        Seq::<PermutationFlag>::empty()
    } else {
        seq![PermutationFlag::DisableDiagonalDetection]
    };
    if key.corner_detection {
        diag
    } else {
        diag.push(PermutationFlag::DisableCornerDetection)
    }
}

/// The specializer's own fixed state: the one bind-group layout of the
/// pass and the sampler bound through it, both as stable identities.
pub struct SmaaPipeline {
    /// Identity of the bind-group layout shared by every variant.
    pub texture_bind_group: u64,
    /// Identity of the linear sampler bound for the source texture.
    pub sampler: u64,
}

impl SmaaPipeline {
    /// What `specialize` promises of its result, field by field: a
    /// full-screen pass with the one shared bind-group layout, the shared
    /// full-screen-triangle vertex stage, the effect's fragment shader
    /// with the key's permutation flags, one blend-free color target in
    /// the key's format with all channels writable, no depth/stencil,
    /// single-sample, and no push constants.
    pub open spec fn descriptor_matches(
        self,
        key: SmaaPipelineKey,
        r: RenderPipelineDescriptor,
    ) -> bool {
        &&& r.label matches Some(l) && l@ == "smaa"@
        &&& r.layout@ == seq![self.texture_bind_group]
        &&& r.vertex.shader == FULLSCREEN_SHADER_HANDLE
        &&& r.vertex.entry_point@ == "fullscreen_vertex"@
        &&& r.fragment matches Some(f) && {
            &&& f.shader == SMAA_SHADER_HANDLE
            &&& f.shader_defs@ == spec_permutation_flags(key)
            &&& f.entry_point@ == "fragment"@
            &&& f.targets@ == seq![
                (ColorTargetState {
                    format: key.texture_format,
                    blend: None,
                    write_mask: COLOR_WRITES_ALL,
                }),
            ]
        }
        &&& r.topology == PrimitiveTopology::TriangleList
        &&& r.depth_stencil is None
        &&& r.multisample_count == 1
        &&& r.push_constant_ranges@ == Seq::<u32>::empty()
    }

    /// Produce the pipeline description for `key`. A pure function of the
    /// key and the specializer's fixed state; compiling and caching the
    /// result is the host pipeline cache's job.
    pub fn specialize(&self, key: SmaaPipelineKey) -> (r: RenderPipelineDescriptor)
        ensures
            self.descriptor_matches(key, r),
    {
        let mut shader_defs: Vec<PermutationFlag> = Vec::new();
        if !key.diag_detection {
            shader_defs.push(PermutationFlag::DisableDiagonalDetection);
        }
        if !key.corner_detection {
            shader_defs.push(PermutationFlag::DisableCornerDetection);
        }
        proof {
            assert(shader_defs@ =~= spec_permutation_flags(key));
        }
        let mut layout: Vec<u64> = Vec::new();
        layout.push(self.texture_bind_group);
        let mut targets: Vec<ColorTargetState> = Vec::new();
        targets.push(
            ColorTargetState {
                format: key.texture_format,
                blend: None,
                write_mask: COLOR_WRITES_ALL,
            },
        );
        proof {
            assert(layout@ =~= seq![self.texture_bind_group]);
            assert(targets@ =~= seq![
                (ColorTargetState {
                    format: key.texture_format,
                    blend: None,
                    write_mask: COLOR_WRITES_ALL,
                }),
            ]);
        }
        RenderPipelineDescriptor {
            label: Some("smaa"),
            layout,
            vertex: VertexState {
                shader: FULLSCREEN_SHADER_HANDLE,
                entry_point: "fullscreen_vertex",
            },
            fragment: Some(
                FragmentState {
                    shader: SMAA_SHADER_HANDLE,
                    shader_defs,
                    entry_point: "fragment",
                    targets,
                },
            ),
            topology: PrimitiveTopology::TriangleList,
            depth_stencil: None,
            multisample_count: 1,
            push_constant_ranges: Vec::new(),
        }
    }
}

/// Law: specialization is deterministic. Two descriptions produced for
/// equal keys agree on every field, the debug label included, since the
/// label is a fixed literal; a pipeline cache may therefore deduplicate
/// compiled variants by key equality alone.
pub proof fn lemma_specialize_deterministic(
    p: SmaaPipeline,
    k1: SmaaPipelineKey,
    k2: SmaaPipelineKey,
    d1: RenderPipelineDescriptor,
    d2: RenderPipelineDescriptor,
)
    requires
        k1 == k2,
        p.descriptor_matches(k1, d1),
        p.descriptor_matches(k2, d2),
    ensures
        d1.label matches Some(l1) && d2.label matches Some(l2) && l1@ == l2@,
        d1.layout@ == d2.layout@,
        d1.vertex.shader == d2.vertex.shader,
        d1.vertex.entry_point@ == d2.vertex.entry_point@,
        d1.fragment matches Some(f1) && d2.fragment matches Some(f2) && {
            &&& f1.shader == f2.shader
            &&& f1.shader_defs@ == f2.shader_defs@
            &&& f1.entry_point@ == f2.entry_point@
            &&& f1.targets@ == f2.targets@
        },
        d1.topology == d2.topology,
        d1.depth_stencil == d2.depth_stencil,
        d1.multisample_count == d2.multisample_count,
        d1.push_constant_ranges@ == d2.push_constant_ranges@,
{
}

} // verus!
