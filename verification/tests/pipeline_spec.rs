use smaa::params::SmaaShaderDefs;
use smaa::pipeline::{
    PermutationFlag, PrimitiveTopology, SmaaPipeline, SmaaPipelineKey, TextureFormat,
    COLOR_WRITES_ALL, FULLSCREEN_SHADER_HANDLE, SMAA_SHADER_HANDLE,
};

fn specializer() -> SmaaPipeline {
    SmaaPipeline {
        texture_bind_group: 41,
        sampler: 42,
    }
}

#[test]
fn specialize_twice_with_equal_keys_gives_equal_descriptors() {
    let pipeline = specializer();
    let key = SmaaPipelineKey {
        texture_format: TextureFormat::Rgba8UnormSrgb,
        diag_detection: true,
        corner_detection: false,
    };
    let first = pipeline.specialize(key);
    let second = pipeline.specialize(key);
    assert_eq!(first, second);
}

#[test]
fn specialize_wires_the_descriptor() {
    let pipeline = specializer();
    let key = SmaaPipelineKey {
        texture_format: TextureFormat::Bgra8UnormSrgb,
        diag_detection: true,
        corner_detection: true,
    };
    let descriptor = pipeline.specialize(key);
    assert_eq!(descriptor.label, Some("smaa"));
    assert_eq!(descriptor.layout, vec![41]);
    assert_eq!(descriptor.vertex.shader, FULLSCREEN_SHADER_HANDLE);
    assert_eq!(descriptor.vertex.entry_point, "fullscreen_vertex");
    let fragment = descriptor.fragment.expect("fragment stage present");
    assert_eq!(fragment.shader, SMAA_SHADER_HANDLE);
    assert_eq!(fragment.entry_point, "fragment");
    assert_eq!(fragment.shader_defs, vec![]);
    assert_eq!(fragment.targets.len(), 1);
    assert_eq!(fragment.targets[0].format, TextureFormat::Bgra8UnormSrgb);
    assert_eq!(fragment.targets[0].blend, None);
    assert_eq!(fragment.targets[0].write_mask, COLOR_WRITES_ALL);
    assert_eq!(descriptor.topology, PrimitiveTopology::TriangleList);
    assert_eq!(descriptor.depth_stencil, None);
    assert_eq!(descriptor.multisample_count, 1);
    assert!(descriptor.push_constant_ranges.is_empty());
}

#[test]
fn permutation_flags_follow_the_disabled_features() {
    let pipeline = specializer();
    let both_off = SmaaPipelineKey {
        texture_format: TextureFormat::Rgba8Unorm,
        diag_detection: false,
        corner_detection: false,
    };
    let flags = pipeline.specialize(both_off).fragment.unwrap().shader_defs;
    assert_eq!(
        flags,
        vec![
            PermutationFlag::DisableDiagonalDetection,
            PermutationFlag::DisableCornerDetection,
        ]
    );
    let corner_only = SmaaPipelineKey {
        texture_format: TextureFormat::Rgba8Unorm,
        diag_detection: true,
        corner_detection: false,
    };
    let flags = pipeline
        .specialize(corner_only)
        .fragment
        .unwrap()
        .shader_defs;
    assert_eq!(flags, vec![PermutationFlag::DisableCornerDetection]);
}

#[test]
fn key_from_defs_folds_the_feature_toggles() {
    let low = SmaaShaderDefs::low();
    let key = SmaaPipelineKey::from_defs(TextureFormat::Rgb10a2Unorm, &low);
    assert_eq!(key.texture_format, TextureFormat::Rgb10a2Unorm);
    assert!(!key.diag_detection);
    assert!(!key.corner_detection);

    let ultra = SmaaShaderDefs::ultra();
    let key = SmaaPipelineKey::from_defs(TextureFormat::Rgba8Unorm, &ultra);
    assert!(key.diag_detection);
    assert!(key.corner_detection);
}

#[test]
fn distinct_formats_make_distinct_keys() {
    let a = SmaaPipelineKey {
        texture_format: TextureFormat::Rgba8Unorm,
        diag_detection: true,
        corner_detection: true,
    };
    let b = SmaaPipelineKey {
        texture_format: TextureFormat::Bgra8Unorm,
        ..a
    };
    assert_ne!(a, b);
    let pipeline = specializer();
    assert_ne!(pipeline.specialize(a), pipeline.specialize(b));
}
