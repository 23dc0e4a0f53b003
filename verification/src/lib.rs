use vstd::prelude::*;

use itertools::Itertools;

pub mod color_cube;
pub mod events;
pub mod image;
pub mod render;

use crate::color_cube::{
    cube_count, initial_instance, mesh_matches_cube, update_color_cube, updated_mesh,
    create_color_cube, ColorCube, Ratio, UpdateColorCubeEvent,
};
use crate::events::Channel;
use crate::image::{
    render_image, set_color_transformation, set_input_image, set_output_canvas, transform_image,
    transformed_data, Color, ColorMatrix, ColorTransformation, Image, Output, RenderData,
    RenderRequest, SetColorTransformationEvent, SetInputImageEvent, SetOutputCanvasEvent,
    TransformImageEvent,
};
use crate::render::{
    glc_render_queue, prepare_instance_buffer, GlcRenderingPipeline, InstanceBuffer, InstancedMesh,
    PipelineKey, PrimitiveTopology, SpecializedPipelines, Transparent3dItem,
};

verus! {

/// A configuration the library rejects up front, rather than producing
/// undefined geometry or panicking later.
#[derive(Clone, Copy, PartialEq, Eq, Structural, Debug)]
pub enum GlcError {
    /// The cube resolution must be at least 2.
    ResolutionTooSmall,
    /// The histogram threshold must be strictly positive.
    ThresholdNotPositive,
    /// The cube's voxel count does not fit in memory.
    CubeTooLarge,
    /// The input image's byte length does not match its dimensions.
    ImageSizeMismatch,
}

/// Rotate and zoom the camera rig.  The units are thousandths of the host's
/// rotation and zoom units; camera motion itself is the host's concern, the
/// core only delivers the event (latest wins within a frame).
#[derive(Clone, Copy, PartialEq, Eq, Structural, Debug)]
pub struct CameraMoveEvent {
    pub rotate_x_milli: i32,
    pub rotate_y_milli: i32,
    pub zoom_milli: i32,
}

/// What one frame hands back to the host: the camera event to apply, the 2D
/// output surface write (if one is due), and the draw items to submit with
/// the prepared instance buffer.
pub struct FrameOutput {
    pub camera: Option<CameraMoveEvent>,
    pub render_data: Option<RenderData>,
    pub draw_items: Vec<Transparent3dItem>,
}

/// The default cube resolution of the startup scene.
pub const DEFAULT_RESOLUTION: u32 = 32;

/// The default histogram threshold of the startup scene, as numerator and
/// denominator of a fraction of the pixel count.
pub const DEFAULT_THRESHOLD_NUM: u32 = 1;

pub const DEFAULT_THRESHOLD_DEN: u32 = 1000;

/// The default antialiasing sample count the render pipeline is specialized
/// for.
pub const DEFAULT_MSAA_SAMPLES: u32 = 4;

/// Relies on itertools' `chunks`: groups the byte stream into consecutive
/// 4-byte groups, in order, which become the RGBA pixels.
#[verifier::external_body]
fn colors_from_rgba_bytes(bytes: &Vec<u8>) -> (colors: Vec<Color>)
    requires
        bytes@.len() % 4 == 0,
    ensures
        colors@.len() == bytes@.len() / 4,
        forall|i: int|
            0 <= i < colors@.len() ==> colors@[i] == (Color {
                r: bytes@[4 * i],
                g: bytes@[4 * i + 1],
                b: bytes@[4 * i + 2],
                a: bytes@[4 * i + 3],
            }),
{
    bytes
        .iter()
        .copied()
        .chunks(4)
        .into_iter()
        .map(
            |mut chunk|
                Color::rgba(
                    chunk.next().unwrap(),
                    chunk.next().unwrap(),
                    chunk.next().unwrap(),
                    chunk.next().unwrap(),
                ),
        )
        .collect()
}

/// The application context: all scene state in one struct with named slots,
/// passed by reference into each pipeline stage — no hidden global registry.
/// Host events are buffered in the channels and consumed, latest wins, by the
/// frame that `update` advances.
pub struct Glc {
    pub cube: ColorCube,
    pub mesh: InstancedMesh,
    pub input_image: Image,
    pub output_image: Image,
    pub transformation: ColorTransformation,
    pub output: Output,
    pub msaa_samples: u32,
    pub camera_events: Channel<CameraMoveEvent>,
    pub image_events: Channel<SetInputImageEvent>,
    pub xform_events: Channel<SetColorTransformationEvent>,
    pub output_events: Channel<SetOutputCanvasEvent>,
    pub pipelines: SpecializedPipelines,
    pub instance_buffer: Option<InstanceBuffer>,
}

impl Glc {
    pub open spec fn wf(self) -> bool {
        &&& self.cube.wf()
        &&& mesh_matches_cube(self.mesh, self.cube)
        &&& self.input_image.wf()
        &&& self.output_image.wf()
        &&& self.pipelines.wf()
        &&& forall|i: int|
            0 <= i < self.image_events.pending@.len() ==> (
            #[trigger] self.image_events.pending@[i]).wf()
        &&& self.image_events.active matches Some(e) ==> e.wf()
    }

    /// Initialize the context: build the color cube, start with empty
    /// images, no transformation and no output surface, and run one frame.
    pub fn new(resolution: u32, threshold: Ratio) -> (result: Result<Glc, GlcError>)
        ensures
            resolution < 2 ==> (result matches Err(e) && e == GlcError::ResolutionTooSmall),
            resolution >= 2 && !threshold.wf() ==> (result matches Err(e) && e
                == GlcError::ThresholdNotPositive),
            resolution >= 2 && threshold.wf() && cube_count(resolution as int) > usize::MAX
                ==> (result matches Err(e) && e == GlcError::CubeTooLarge),
            resolution >= 2 && threshold.wf() && cube_count(resolution as int) <= usize::MAX ==> {
                &&& result matches Ok(g)
                &&& g.wf()
                &&& g.cube == (ColorCube { resolution, threshold })
                &&& g.input_image.width == 0 && g.input_image.height == 0
                    && g.input_image.data@.len() == 0
                &&& g.output_image.width == 0 && g.output_image.height == 0
                &&& g.transformation.rotation == ColorMatrix::identity_spec()
                &&& g.output.canvas_id is None
                &&& g.msaa_samples == DEFAULT_MSAA_SAMPLES
                &&& g.mesh.0@.len() == cube_count(resolution as int)
                &&& forall|i: int|
                    0 <= i < g.mesh.0@.len() ==> g.mesh.0@[i] == initial_instance(
                        resolution as int,
                        i,
                    )
                &&& g.instance_buffer matches Some(b) && b.buffer@ == g.mesh.0@
                &&& g.camera_events.pending@.len() == 0 && g.image_events.pending@.len() == 0
                    && g.xform_events.pending@.len() == 0 && g.output_events.pending@.len() == 0
            },
    {
        let pair = match create_color_cube(resolution, threshold) {
            Ok(pair) => pair,
            Err(e) => {
                return Err(e);
            },
        };
        let mut glc = Glc {
            cube: pair.0,
            mesh: pair.1,
            input_image: Image::default(),
            output_image: Image::default(),
            transformation: ColorTransformation::default(),
            output: Output::default(),
            msaa_samples: DEFAULT_MSAA_SAMPLES,
            camera_events: Channel::new(),
            image_events: Channel::new(),
            xform_events: Channel::new(),
            output_events: Channel::new(),
            pipelines: SpecializedPipelines::new(),
            instance_buffer: None,
        };
        let _initial_frame = glc.update();
        Ok(glc)
    }

    /// Buffer a camera move for the next frame.
    pub fn move_camera(&mut self, rotate_x_milli: i32, rotate_y_milli: i32, zoom_milli: i32)
        ensures
            final(self).camera_events.pending@ == old(self).camera_events.pending@.push(
                CameraMoveEvent { rotate_x_milli, rotate_y_milli, zoom_milli },
            ),
            final(self).camera_events.active == old(self).camera_events.active,
            *final(self) == (Glc { camera_events: final(self).camera_events, ..*old(self) }),
    {
        self.camera_events.send(CameraMoveEvent { rotate_x_milli, rotate_y_milli, zoom_milli });
    }

    /// Buffer a new input image for the next frame.  `bytes` are 8-bit RGBA,
    /// four bytes per pixel, row-major; a byte length that does not match the
    /// dimensions is rejected.
    pub fn set_input_image(&mut self, width: u32, height: u32, bytes: Vec<u8>) -> (result: Result<
        (),
        GlcError,
    >)
        ensures
            result is Ok <==> bytes@.len() == 4 * (width * height),
            result matches Err(e) ==> e == GlcError::ImageSizeMismatch && *final(self) == *old(self),
            result is Ok ==> {
                &&& *final(self) == (Glc { image_events: final(self).image_events, ..*old(self) })
                &&& final(self).image_events.active == old(self).image_events.active
                &&& final(self).image_events.pending@.len() == old(self).image_events.pending@.len() + 1
                &&& final(self).image_events.pending@.drop_last() == old(self).image_events.pending@
                &&& {
                    let e = final(self).image_events.pending@.last();
                    &&& e.width == width
                    &&& e.height == height
                    &&& e.wf()
                    &&& e.data@.len() == width * height
                    &&& forall|i: int|
                        0 <= i < e.data@.len() ==> e.data@[i] == (Color {
                            r: bytes@[4 * i],
                            g: bytes@[4 * i + 1],
                            b: bytes@[4 * i + 2],
                            a: bytes@[4 * i + 3],
                        })
                }
            },
    {
        proof {
            vstd::arithmetic::mul::lemma_mul_nonnegative(width as int, height as int);
            assert(width * height <= 0xffff_ffff * 0xffff_ffff) by (nonlinear_arith)
                requires
                    0 <= width <= 0xffff_ffff,
                    0 <= height <= 0xffff_ffff,
            ;
        }
        let pixels: u64 = (width as u64) * (height as u64);
        let expected: u128 = 4 * (pixels as u128);
        if (bytes.len() as u128) != expected {
            return Err(GlcError::ImageSizeMismatch);
        }
        proof {
            let wh = (width * height) as int;
            vstd::arithmetic::div_mod::lemma_mod_multiples_basic(wh, 4);
            vstd::arithmetic::div_mod::lemma_div_by_multiple(wh, 4);
            assert(bytes@.len() % 4 == 0);
            assert(bytes@.len() / 4 == wh);
        }
        let data = colors_from_rgba_bytes(&bytes);
        self.image_events.send(SetInputImageEvent { width, height, data });
        Ok(())
    }

    /// Buffer a new output surface id for the next frame.
    pub fn set_output_canvas(&mut self, canvas_id: String)
        ensures
            final(self).output_events.pending@ == old(self).output_events.pending@.push(
                SetOutputCanvasEvent { canvas_id },
            ),
            final(self).output_events.active == old(self).output_events.active,
            *final(self) == (Glc { output_events: final(self).output_events, ..*old(self) }),
    {
        self.output_events.send(SetOutputCanvasEvent { canvas_id });
    }

    /// Buffer a new color-space rotation for the next frame.  The host
    /// supplies the rotation as a fixed-point matrix (for a rotation of `d`
    /// degrees around the vertical color axis, the matrix of that rotation).
    pub fn rotate(&mut self, rotation: ColorMatrix)
        ensures
            final(self).xform_events.pending@ == old(self).xform_events.pending@.push(
                SetColorTransformationEvent { rotation },
            ),
            final(self).xform_events.active == old(self).xform_events.active,
            *final(self) == (Glc { xform_events: final(self).xform_events, ..*old(self) }),
    {
        self.xform_events.send(SetColorTransformationEvent { rotation });
    }

    /// Advance one frame: flush the buffered host events (latest of each kind
    /// wins), run the image pipeline chain they trigger — input/transform
    /// replacement, transform recompute, histogram update — then the render
    /// stages: extract and prepare the instance buffer, queue the draw items,
    /// and work out the 2D output write, if one is due.
    pub fn update(&mut self) -> (out: FrameOutput)
        requires
            old(self).wf(),
        ensures
            final(self).wf(),
            final(self).cube == old(self).cube,
            final(self).msaa_samples == old(self).msaa_samples,
            final(self).camera_events.pending@.len() == 0 && final(self).camera_events.active
                is None,
            final(self).image_events.pending@.len() == 0 && final(self).image_events.active
                is None,
            final(self).xform_events.pending@.len() == 0 && final(self).xform_events.active
                is None,
            final(self).output_events.pending@.len() == 0 && final(self).output_events.active
                is None,
            out.camera == old(self).camera_events.latest(),
            ({
                let ie = old(self).image_events.latest();
                &&& ie matches Some(e) ==> final(self).input_image.width == e.width && final(self).input_image.height == e.height && final(self).input_image.data@ == e.data@
                &&& ie is None ==> final(self).input_image == old(self).input_image
            }),
            ({
                let xe = old(self).xform_events.latest();
                &&& xe matches Some(e) ==> final(self).transformation.rotation == e.rotation
                &&& xe is None ==> final(self).transformation == old(self).transformation
            }),
            ({
                let oe = old(self).output_events.latest();
                &&& oe matches Some(e) ==> final(self).output.canvas_id == Some(e.canvas_id)
                &&& oe is None ==> final(self).output == old(self).output
            }),
            ({
                let ran = old(self).image_events.latest() is Some || old(self).xform_events.latest() is Some;
                &&& ran ==> final(self).output_image.width == final(self).input_image.width
                    && final(self).output_image.height == final(self).input_image.height && final(self).output_image.data@ == transformed_data(
                    final(self).input_image.data@,
                    final(self).transformation.rotation,
                ) && final(self).mesh.0@ == updated_mesh(
                    old(self).mesh.0@,
                    final(self).input_image.data@,
                    old(self).cube.resolution as int,
                    old(self).cube.threshold,
                    final(self).input_image.pixel_count(),
                )
                &&& !ran ==> final(self).output_image == old(self).output_image && final(self).mesh.0@ == old(self).mesh.0@
            }),
            final(self).instance_buffer matches Some(b) && b.buffer@ == final(self).mesh.0@
                && b.length == final(self).mesh.0@.len(),
            ({
                let render_requested = old(self).image_events.latest() is Some || old(self).xform_events.latest() is Some || old(self).output_events.latest() is Some;
                &&& out.render_data is Some <==> render_requested && final(self).output.canvas_id
                    is Some && final(self).output_image.width > 0 && final(self).output_image.height > 0
                &&& out.render_data matches Some(d) ==> {
                    &&& d.canvas_id == final(self).output.canvas_id->0
                    &&& d.width == final(self).output_image.width
                    &&& d.height == final(self).output_image.height
                    &&& d.bytes@.len() == 4 * final(self).output_image.data@.len()
                    &&& forall|j: int|
                        0 <= j < final(self).output_image.data@.len() ==> d.bytes@[4 * j] == final(self).output_image.data@[j].r && d.bytes@[4 * j + 1] == final(self).output_image.data@[j].g && d.bytes@[4 * j + 2] == final(self).output_image.data@[j].b && d.bytes@[4 * j + 3] == final(self).output_image.data@[j].a
                }
            }),
            ({
                let key = PipelineKey {
                    msaa_samples: old(self).msaa_samples,
                    topology: PrimitiveTopology::TriangleList,
                };
                &&& final(self).pipelines.has_key(key)
                &&& old(self).pipelines.has_key(key) ==> final(self).pipelines == old(self).pipelines
                &&& final(self).mesh.0@.len() > 0 ==> out.draw_items@.len() == 1
                    && out.draw_items@[0].entity == 0 && final(self).pipelines.keys@[out.draw_items@[0].pipeline as int]
                    == key
                &&& final(self).mesh.0@.len() == 0 ==> out.draw_items@.len() == 0
            }),
    {
        self.camera_events.swap();
        self.image_events.swap();
        self.xform_events.swap();
        self.output_events.swap();
        let camera = self.camera_events.take();
        let image_evt = self.image_events.take();
        let xform_evt = self.xform_events.take();
        let output_evt = self.output_events.take();

        let from_image = set_input_image(image_evt, &mut self.input_image);
        let from_xform = set_color_transformation(xform_evt, &mut self.transformation);
        let mut render_evt = set_output_canvas(output_evt, &mut self.output);

        let transform_evt: Option<TransformImageEvent> = if from_image.is_some()
            || from_xform.is_some() {
            Some(TransformImageEvent)
        } else {
            None
        };
        let mut cube_evt: Option<UpdateColorCubeEvent> = None;
        if transform_evt.is_some() {
            transform_image(&self.input_image, &self.transformation, &mut self.output_image);
            cube_evt = Some(UpdateColorCubeEvent);
            render_evt = Some(RenderRequest);
        }
        if cube_evt.is_some() {
            update_color_cube(&self.input_image, &self.cube, &mut self.mesh);
        }

        prepare_instance_buffer(&self.mesh, &mut self.instance_buffer);
        let rendering_pipeline = GlcRenderingPipeline {};
        let mut entities: Vec<usize> = Vec::new();
        if self.mesh.0.len() > 0 {
            entities.push(0);
        }
        let draw_items = glc_render_queue(
            &mut self.pipelines,
            &rendering_pipeline,
            self.msaa_samples,
            &entities,
        );

        let render_data = render_image(render_evt, &self.output_image, &self.output);
        FrameOutput { camera, render_data, draw_items }
    }
}

/// The startup scene: a color cube at the default resolution and threshold,
/// empty input and output images, and no output surface yet.
pub fn create_scene() -> (g: Glc)
    ensures
        g.wf(),
        g.cube == (ColorCube {
            resolution: DEFAULT_RESOLUTION,
            threshold: Ratio { num: DEFAULT_THRESHOLD_NUM, den: DEFAULT_THRESHOLD_DEN },
        }),
        g.input_image.width == 0 && g.input_image.height == 0,
        g.output.canvas_id is None,
        g.mesh.0@.len() == cube_count(DEFAULT_RESOLUTION as int),
        forall|i: int|
            0 <= i < g.mesh.0@.len() ==> g.mesh.0@[i] == initial_instance(
                DEFAULT_RESOLUTION as int,
                i,
            ),
{
    proof {
        assert((DEFAULT_RESOLUTION as int) * (DEFAULT_RESOLUTION as int) * (DEFAULT_RESOLUTION
            as int) == 32768) by (nonlinear_arith);
        assert(cube_count(DEFAULT_RESOLUTION as int) == 32768);
    }
    let result = Glc::new(
        DEFAULT_RESOLUTION,
        Ratio { num: DEFAULT_THRESHOLD_NUM, den: DEFAULT_THRESHOLD_DEN },
    );
    result.unwrap()
}

} // verus!
