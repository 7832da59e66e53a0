use smaa::extract::SmaaSettings;
use smaa::node::{BindGroup, RenderTargets, SmaaNode, ViewFrameData, ViewSmaaPipeline};
use smaa::params::{BevySmaaMode, SmaaShaderDefs};
use smaa::pipeline::SmaaPipeline;

fn fixed_resources() -> SmaaPipeline {
    SmaaPipeline {
        texture_bind_group: 7,
        sampler: 8,
    }
}

fn view_data(source: u64, destination: u64) -> ViewFrameData {
    // The compiled handle the host's pipeline cache resolved from the
    // view's pipeline component.
    let view_pipeline = ViewSmaaPipeline(500);
    ViewFrameData {
        targets: Some(RenderTargets {
            source,
            destination,
        }),
        pipeline: Some(view_pipeline.0),
        uniform_offset: Some(256),
    }
}

#[test]
fn first_run_builds_one_bind_group_and_draws() {
    let pipeline = fixed_resources();
    let mut node = SmaaNode::new();
    let command = node
        .run(&pipeline, 1, &view_data(100, 200), Some(77))
        .expect("eligible view draws");
    assert_eq!(node.rebuilds(), 1);
    assert_eq!(command.pipeline, 500);
    assert_eq!(command.dynamic_offset, 256);
    assert_eq!(command.destination, 200);
    assert_eq!(command.vertex_count, 3);
    assert_eq!(
        command.bind_group,
        BindGroup {
            layout: 7,
            sampler: 8,
            texture: 100,
            buffer: 77,
        }
    );
}

#[test]
fn same_frame_state_twice_reuses_the_bind_group() {
    let pipeline = fixed_resources();
    let mut node = SmaaNode::new();
    let data = view_data(100, 200);
    let first = node.run(&pipeline, 1, &data, Some(77));
    assert_eq!(node.rebuilds(), 1);
    let second = node.run(&pipeline, 1, &data, Some(77));
    assert_eq!(node.rebuilds(), 1);
    assert_eq!(second, first);
}

#[test]
fn missing_uniform_offset_is_a_no_op() {
    let pipeline = fixed_resources();
    let mut node = SmaaNode::new();
    let data = ViewFrameData {
        uniform_offset: None,
        ..view_data(100, 200)
    };
    assert_eq!(node.run(&pipeline, 1, &data, Some(77)), None);
    assert_eq!(node.rebuilds(), 0);
}

#[test]
fn missing_pipeline_is_a_no_op() {
    let pipeline = fixed_resources();
    let mut node = SmaaNode::new();
    let data = ViewFrameData {
        pipeline: None,
        ..view_data(100, 200)
    };
    assert_eq!(node.run(&pipeline, 1, &data, Some(77)), None);
    assert_eq!(node.rebuilds(), 0);
}

#[test]
fn missing_targets_is_a_no_op() {
    let pipeline = fixed_resources();
    let mut node = SmaaNode::new();
    let data = ViewFrameData {
        targets: None,
        ..view_data(100, 200)
    };
    assert_eq!(node.run(&pipeline, 1, &data, Some(77)), None);
    assert_eq!(node.rebuilds(), 0);
}

#[test]
fn missing_uniform_buffer_is_a_no_op() {
    let pipeline = fixed_resources();
    let mut node = SmaaNode::new();
    assert_eq!(node.run(&pipeline, 1, &view_data(100, 200), None), None);
    assert_eq!(node.rebuilds(), 0);
}

#[test]
fn disabled_view_never_reaches_the_gpu() {
    // A disabled view yields no uniform entry, so the node sees no offset
    // for it and no-ops without error.
    let settings = SmaaSettings {
        smaa_mode: BevySmaaMode::Disabled,
    };
    let defs = SmaaShaderDefs::high();
    assert_eq!(settings.extract_component(&defs), None);
    let pipeline = fixed_resources();
    let mut node = SmaaNode::new();
    let data = ViewFrameData {
        uniform_offset: None,
        ..view_data(100, 200)
    };
    assert_eq!(node.run(&pipeline, 9, &data, Some(77)), None);
    assert_eq!(node.rebuilds(), 0);
}

#[test]
fn new_source_identity_rebuilds_exactly_once() {
    // After a viewport resize the ping-pong write hands the next frame a
    // new source texture identity.
    let pipeline = fixed_resources();
    let mut node = SmaaNode::new();
    node.run(&pipeline, 1, &view_data(100, 200), Some(77));
    assert_eq!(node.rebuilds(), 1);
    let resized = view_data(101, 201);
    let command = node.run(&pipeline, 1, &resized, Some(77)).unwrap();
    assert_eq!(node.rebuilds(), 2);
    assert_eq!(command.bind_group.texture, 101);
    node.run(&pipeline, 1, &resized, Some(77));
    assert_eq!(node.rebuilds(), 2);
}

#[test]
fn new_uniform_buffer_identity_rebuilds() {
    let pipeline = fixed_resources();
    let mut node = SmaaNode::new();
    let data = view_data(100, 200);
    node.run(&pipeline, 1, &data, Some(77));
    assert_eq!(node.rebuilds(), 1);
    let command = node.run(&pipeline, 1, &data, Some(78)).unwrap();
    assert_eq!(node.rebuilds(), 2);
    assert_eq!(command.bind_group.buffer, 78);
}

#[test]
fn two_views_keep_their_own_bind_groups() {
    let pipeline = fixed_resources();
    let mut node = SmaaNode::new();
    let data_a = view_data(100, 200);
    let data_b = view_data(300, 400);
    let command_a = node.run(&pipeline, 1, &data_a, Some(77)).unwrap();
    let command_b = node.run(&pipeline, 2, &data_b, Some(77)).unwrap();
    assert_eq!(command_a.bind_group.texture, 100);
    assert_eq!(command_b.bind_group.texture, 300);
    assert_eq!(node.rebuilds(), 2);
    // Interleaved frames: neither view evicts the other's slot.
    let again_a = node.run(&pipeline, 1, &data_a, Some(77)).unwrap();
    let again_b = node.run(&pipeline, 2, &data_b, Some(77)).unwrap();
    assert_eq!(node.rebuilds(), 2);
    assert_eq!(again_a, command_a);
    assert_eq!(again_b, command_b);
}

#[test]
fn checkerboard_frame_dispatch_encodes_threshold_and_steps() {
    // Default/High-like bundle: edge threshold 0.100, sixteen search
    // steps. The view's source holds a synthetic two-color checkerboard;
    // the node must dispatch one full-screen draw reading it, and the
    // uniform entry must encode the thresholds and step counts exactly.
    let defs = SmaaShaderDefs::high();
    let settings = SmaaSettings {
        smaa_mode: BevySmaaMode::Smaa1X,
    };
    let uniform = settings.extract_component(&defs).expect("entry produced");
    assert_eq!(
        uniform.to_bytes(),
        vec![
            100, 0, 0, 0, 10, 0, 0, 0, 16, 0, 0, 0, 8, 0, 0, 0, 0xA8, 0x61, 0, 0, 0xD0, 0x07, 0,
            0,
        ]
    );
    let checkerboard_texture = 1000u64;
    let pipeline = fixed_resources();
    let mut node = SmaaNode::new();
    let data = view_data(checkerboard_texture, 1001);
    let command = node.run(&pipeline, 1, &data, Some(77)).unwrap();
    assert_eq!(command.bind_group.texture, checkerboard_texture);
    assert_eq!(command.vertex_count, 3);
    assert_eq!(command.destination, 1001);
}
