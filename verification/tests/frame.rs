use glc::color_cube::Ratio;
use glc::events::Channel;
use glc::image::{Color, ColorMatrix, MATRIX_ONE};
use glc::render::{
    glc_render_queue, prepare_instance_buffer, GlcDrawmMeshInstanced, GlcRenderingPipeline,
    GpuMesh, InstanceBuffer, InstancedMesh, PipelineKey, PrimitiveTopology, RenderCommandResult,
    SpecializedPipelines,
};
use glc::{create_scene, Glc, GlcError};

fn small_glc() -> Glc {
    Glc::new(2, Ratio { num: 1, den: 1 }).unwrap()
}

#[test]
fn new_rejects_bad_configuration() {
    assert!(matches!(
        Glc::new(1, Ratio { num: 1, den: 1000 }),
        Err(GlcError::ResolutionTooSmall)
    ));
    assert!(matches!(
        Glc::new(2, Ratio { num: 0, den: 1000 }),
        Err(GlcError::ThresholdNotPositive)
    ));
}

#[test]
fn new_builds_full_cube_and_runs_one_frame() {
    let g = small_glc();
    assert_eq!(g.cube.resolution, 2);
    assert_eq!(g.mesh.0.len(), 8);
    for inst in g.mesh.0.iter() {
        assert_eq!((inst.occ_num, inst.occ_den), (1, 1)); // full occupancy at init
    }
    assert_eq!(g.input_image.width, 0);
    assert_eq!(g.output_image.width, 0);
    assert!(g.output.canvas_id.is_none());
    // the initial frame already prepared an instance buffer
    let buffer = g.instance_buffer.as_ref().unwrap();
    assert_eq!(buffer.length, 8);
    assert_eq!(buffer.buffer, g.mesh.0);
}

#[test]
fn default_scene_uses_resolution_32() {
    let g = create_scene();
    assert_eq!(g.cube.resolution, 32);
    assert_eq!(g.cube.threshold, Ratio { num: 1, den: 1000 });
    assert_eq!(g.mesh.0.len(), 32 * 32 * 32);
}

#[test]
fn channel_swap_keeps_only_the_latest_event() {
    let mut ch: Channel<u32> = Channel::new();
    ch.send(1);
    ch.send(2);
    ch.send(3);
    ch.swap();
    assert_eq!(ch.take(), Some(3));
    assert_eq!(ch.take(), None);
    ch.swap();
    assert_eq!(ch.take(), None);
}

#[test]
fn two_input_images_in_one_frame_latest_wins() {
    let mut g = small_glc();
    g.set_input_image(1, 1, vec![255, 0, 0, 255]).unwrap();
    g.set_input_image(1, 1, vec![0, 255, 0, 255]).unwrap();
    g.update();
    assert_eq!(g.input_image.data, vec![Color { r: 0, g: 255, b: 0, a: 255 }]);
    // the histogram reflects only the second image: the green voxel is full
    let green_idx = 0 * 4 + 1 * 2 + 0;
    for (i, inst) in g.mesh.0.iter().enumerate() {
        if i == green_idx {
            assert_eq!(inst.occ_num, inst.occ_den);
        } else {
            assert_eq!(inst.occ_num, 0);
        }
    }
}

#[test]
fn output_canvas_before_any_input_renders_nothing() {
    let mut g = small_glc();
    g.set_output_canvas("screen".to_string());
    let out = g.update();
    assert_eq!(g.output.canvas_id.as_deref(), Some("screen"));
    assert!(out.render_data.is_none()); // empty image: normal no-op, not an error
}

#[test]
fn input_and_canvas_produce_a_render() {
    let mut g = small_glc();
    g.set_output_canvas("screen".to_string());
    g.set_input_image(1, 1, vec![10, 20, 30, 40]).unwrap();
    let out = g.update();
    let rd = out.render_data.expect("a 2D render is due");
    assert_eq!(rd.canvas_id, "screen");
    assert_eq!((rd.width, rd.height), (1, 1));
    // identity transformation: the output bytes are the input bytes
    assert_eq!(rd.bytes, vec![10, 20, 30, 40]);
}

#[test]
fn quiet_frame_renders_nothing_new() {
    let mut g = small_glc();
    g.set_output_canvas("screen".to_string());
    g.set_input_image(1, 1, vec![10, 20, 30, 40]).unwrap();
    g.update();
    let out = g.update(); // no events this frame
    assert!(out.render_data.is_none());
    assert!(out.camera.is_none());
}

#[test]
fn rotation_changes_output_but_histogram_reads_the_input() {
    let mut g = small_glc();
    // +90deg about the vertical color axis: red -> black
    let rot = ColorMatrix {
        xx: 0,
        xy: 0,
        xz: MATRIX_ONE,
        yx: 0,
        yy: MATRIX_ONE,
        yz: 0,
        zx: -MATRIX_ONE,
        zy: 0,
        zz: 0,
    };
    g.set_input_image(1, 1, vec![255, 0, 0, 255]).unwrap();
    g.rotate(rot);
    g.update();
    // the 2D output shows the rotated color
    assert_eq!(g.output_image.data, vec![Color { r: 0, g: 0, b: 0, a: 255 }]);
    // but the cube reflects the source distribution: the red voxel is full
    let red_idx = 1 * 4 + 0 * 2 + 0;
    assert_eq!(g.mesh.0[red_idx].occ_num, g.mesh.0[red_idx].occ_den);
    for (i, inst) in g.mesh.0.iter().enumerate() {
        if i != red_idx {
            assert_eq!(inst.occ_num, 0);
        }
    }
}

#[test]
fn camera_events_deliver_latest_only() {
    let mut g = small_glc();
    g.move_camera(1, 2, 3);
    g.move_camera(4, 5, 6);
    let out = g.update();
    let cam = out.camera.unwrap();
    assert_eq!(
        (cam.rotate_x_milli, cam.rotate_y_milli, cam.zoom_milli),
        (4, 5, 6)
    );
}

#[test]
fn input_image_bytes_are_chunked_in_order() {
    let mut g = small_glc();
    g.set_input_image(2, 1, vec![1, 2, 3, 4, 5, 6, 7, 8]).unwrap();
    g.update();
    assert_eq!(
        g.input_image.data,
        vec![Color { r: 1, g: 2, b: 3, a: 4 }, Color { r: 5, g: 6, b: 7, a: 8 }]
    );
}

#[test]
fn mismatched_byte_length_is_rejected() {
    let mut g = small_glc();
    assert!(matches!(
        g.set_input_image(2, 1, vec![1, 2, 3, 4, 5]),
        Err(GlcError::ImageSizeMismatch)
    ));
    // nothing was buffered: the next frame sees no input change
    g.update();
    assert_eq!(g.input_image.width, 0);
}

#[test]
fn frame_enqueues_one_draw_item_for_the_cube() {
    let mut g = small_glc();
    let out = g.update();
    assert_eq!(out.draw_items.len(), 1);
    assert_eq!(out.draw_items[0].entity, 0);
    let key = g.pipelines.keys[out.draw_items[0].pipeline];
    assert_eq!(key.msaa_samples, 4);
    assert_eq!(key.topology, PrimitiveTopology::TriangleList);
}

#[test]
fn pipeline_is_specialized_once_per_key() {
    let mut cache = SpecializedPipelines::new();
    let pipeline = GlcRenderingPipeline {};
    let key_a = PipelineKey { msaa_samples: 4, topology: PrimitiveTopology::TriangleList };
    let key_b = PipelineKey { msaa_samples: 1, topology: PrimitiveTopology::TriangleList };
    let a1 = cache.specialize(&pipeline, key_a);
    let b1 = cache.specialize(&pipeline, key_b);
    let a2 = cache.specialize(&pipeline, key_a);
    assert_eq!(a1, a2);
    assert_ne!(a1, b1);
    assert_eq!(cache.keys.len(), 2);
    let descriptor = &cache.descriptors[a1];
    assert_eq!(descriptor.instance_layout.array_stride, 32);
    assert_eq!(descriptor.instance_layout.attributes.len(), 2);
    assert_eq!(descriptor.instance_layout.attributes[0].shader_location, 3);
    assert_eq!(descriptor.instance_layout.attributes[1].offset, 16);
}

#[test]
fn render_queue_reuses_the_cached_pipeline_across_frames() {
    let mut cache = SpecializedPipelines::new();
    let pipeline = GlcRenderingPipeline {};
    let entities = vec![0usize];
    let items1 = glc_render_queue(&mut cache, &pipeline, 4, &entities);
    let items2 = glc_render_queue(&mut cache, &pipeline, 4, &entities);
    assert_eq!(cache.keys.len(), 1);
    assert_eq!(items1[0].pipeline, items2[0].pipeline);
}

#[test]
fn prepare_replaces_the_previous_buffer() {
    let g = small_glc();
    let mut slot: Option<InstanceBuffer> = None;
    prepare_instance_buffer(&g.mesh, &mut slot);
    let first_len = slot.as_ref().unwrap().length;
    assert_eq!(first_len, 8);
    let empty = InstancedMesh(vec![]);
    prepare_instance_buffer(&empty, &mut slot);
    let buffer = slot.as_ref().unwrap();
    assert_eq!(buffer.length, 0); // empty instance list: a zero-length buffer
    assert!(buffer.buffer.is_empty());
}

#[test]
fn extraction_copies_the_instance_list() {
    let g = small_glc();
    let extracted = g.mesh.extract_component();
    assert_eq!(extracted.0, g.mesh.0);
}

#[test]
fn draw_fails_only_for_a_missing_gpu_mesh() {
    let g = small_glc();
    let buffer = g.instance_buffer.as_ref().unwrap();
    let missing: Option<GpuMesh> = None;
    assert_eq!(
        GlcDrawmMeshInstanced::render(&missing, buffer),
        RenderCommandResult::Failure
    );
    let mesh = Some(GpuMesh { indexed: true, index_count: 36, vertex_count: 24 });
    match GlcDrawmMeshInstanced::render(&mesh, buffer) {
        RenderCommandResult::Success(call) => {
            assert_eq!(call.index_count, 36);
            assert_eq!(call.instance_count, 8);
        }
        RenderCommandResult::Failure => panic!("draw should succeed"),
    }
}
