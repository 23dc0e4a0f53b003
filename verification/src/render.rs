use vstd::prelude::*;

verus! {

/// One voxel instance of the color cube.
///
/// `xi`, `yi`, `zi` are the grid coordinates; with cube resolution `R` and
/// `step = 1 / (R - 1)`, the rendered position is `(xi, yi, zi) * step` and
/// the rendered color is `rgba(xi * step, yi * step, zi * step, 1)`.
///
/// `occ_num / occ_den` is the voxel's occupancy, an exact fraction in
/// `[0, 1]`; the rendered scale is `occupancy * step`, so it never exceeds
/// the base grid cell.  The host turns these integers into the packed
/// 32-byte GPU record (three position floats, one scale float, four color
/// floats) right before upload.
#[derive(Clone, Copy, PartialEq, Eq, Structural, Debug)]
pub struct InstanceData {
    pub xi: u32,
    pub yi: u32,
    pub zi: u32,
    pub occ_num: u128,
    pub occ_den: u128,
}

impl InstanceData {
    /// The occupancy is a well-formed fraction in `[0, 1]`.
    pub open spec fn occ_wf(self) -> bool {
        self.occ_den >= 1 && self.occ_num <= self.occ_den
    }
}

/// The instance list of one entity, mutated by the histogram updater and
/// read by the render extraction stage — never concurrently.
pub struct InstancedMesh(pub Vec<InstanceData>);

impl InstancedMesh {
    /// Render extraction: copy the latest instance list for the render
    /// stages, leaving the source untouched.
    pub fn extract_component(&self) -> (extracted: InstancedMesh)
        ensures
            extracted.0@ == self.0@,
    {
        let n = self.0.len();
        let mut data: Vec<InstanceData> = Vec::new();
        let mut i: usize = 0;
        while i < n
            invariant
                n == self.0@.len(),
                i <= n,
                data@ == self.0@.take(i as int),
            decreases n - i,
        {
            data.push(self.0[i]);
            proof {
                assert(data@ =~= self.0@.take(i + 1));
            }
            i += 1;
        }
        proof {
            assert(self.0@.take(n as int) =~= self.0@);
        }
        InstancedMesh(data)
    }
}

/// The frame's GPU-resident instance buffer: the uploaded instance records
/// and the instance count recorded for the draw stage.
pub struct InstanceBuffer {
    pub buffer: Vec<InstanceData>,
    pub length: usize,
}

impl InstanceBuffer {
    pub open spec fn wf(self) -> bool {
        self.length == self.buffer@.len()
    }
}

/// Buffer preparation, once per frame: release the previous frame's buffer,
/// if any, and install a fresh one holding the current instance list
/// verbatim.  An empty instance list yields a buffer of length 0.
pub fn prepare_instance_buffer(instanced_mesh: &InstancedMesh, slot: &mut Option<InstanceBuffer>)
    ensures
        *final(slot) matches Some(b) && b.buffer@ == instanced_mesh.0@ && b.length
            == instanced_mesh.0@.len() && b.wf(),
{
    let extracted = instanced_mesh.extract_component();
    let length = extracted.0.len();
    *slot = Some(InstanceBuffer { buffer: extracted.0, length });
}

/// The primitive topology part of a pipeline key.
#[derive(Clone, Copy, PartialEq, Eq, Structural, Debug)]
pub enum PrimitiveTopology {
    PointList,
    LineList,
    TriangleList,
}

/// What a specialized pipeline is keyed by: antialiasing sample count and
/// primitive topology.  A pipeline is built once per distinct key and cached.
#[derive(Clone, Copy, PartialEq, Eq, Structural, Debug)]
pub struct PipelineKey {
    pub msaa_samples: u32,
    pub topology: PrimitiveTopology,
}

#[derive(Clone, Copy, PartialEq, Eq, Structural, Debug)]
pub enum VertexFormat {
    Float32x4,
}

#[derive(Clone, Copy, PartialEq, Eq, Structural, Debug)]
pub enum VertexStepMode {
    Vertex,
    Instance,
}

#[derive(Clone, Copy, PartialEq, Eq, Structural, Debug)]
pub struct VertexAttribute {
    pub format: VertexFormat,
    pub offset: u64,
    pub shader_location: u32,
}

/// The layout of the instance buffer as the pipeline binds it.
pub struct VertexBufferLayout {
    pub array_stride: u64,
    pub step_mode: VertexStepMode,
    pub attributes: Vec<VertexAttribute>,
}

/// A specialized pipeline: the key it was built for and the instance-buffer
/// layout it binds at slot 1 (the base mesh's own buffers sit at slot 0).
pub struct RenderPipelineDescriptor {
    pub key: PipelineKey,
    pub instance_layout: VertexBufferLayout,
}

/// The instance-buffer layout every specialization binds: one 32-byte record
/// per instance — position and scale as one four-float attribute, color as
/// another — stepped per instance, at the locations after the base mesh's
/// position/normal/UV attributes (0–2).
pub open spec fn instance_layout_wf(layout: VertexBufferLayout) -> bool {
    &&& layout.array_stride == 32
    &&& layout.step_mode == VertexStepMode::Instance
    &&& layout.attributes@ == seq![
        VertexAttribute { format: VertexFormat::Float32x4, offset: 0, shader_location: 3 },
        VertexAttribute { format: VertexFormat::Float32x4, offset: 16, shader_location: 4 },
    ]
}

/// The rendering pipeline for instanced voxel meshes.  Shader module and
/// base mesh pipeline live with the host's GPU device and are not modeled.
pub struct GlcRenderingPipeline {}

impl GlcRenderingPipeline {
    /// Build the pipeline descriptor for one key: the base descriptor for
    /// that key with the per-instance vertex buffer layout appended.
    pub fn specialize(&self, key: PipelineKey) -> (descriptor: RenderPipelineDescriptor)
        ensures
            descriptor.key == key,
            instance_layout_wf(descriptor.instance_layout),
    {
        let mut attributes: Vec<VertexAttribute> = Vec::new();
        attributes.push(
            VertexAttribute { format: VertexFormat::Float32x4, offset: 0, shader_location: 3 },
        );
        attributes.push(
            VertexAttribute { format: VertexFormat::Float32x4, offset: 16, shader_location: 4 },
        );
        proof {
            assert(attributes@ =~= seq![
                VertexAttribute { format: VertexFormat::Float32x4, offset: 0, shader_location: 3 },
                VertexAttribute { format: VertexFormat::Float32x4, offset: 16, shader_location: 4 },
            ]);
        }
        RenderPipelineDescriptor {
            key,
            instance_layout: VertexBufferLayout {
                array_stride: 32,
                step_mode: VertexStepMode::Instance,
                attributes,
            },
        }
    }
}

/// The lazy cache of specialized pipelines.  A pipeline id is an index into
/// `keys`; a pipeline is built at most once per key and its id never changes.
pub struct SpecializedPipelines {
    pub keys: Vec<PipelineKey>,
    pub descriptors: Vec<RenderPipelineDescriptor>,
}

impl SpecializedPipelines {
    pub open spec fn wf(self) -> bool {
        &&& self.descriptors@.len() == self.keys@.len()
        &&& forall|i: int|
            0 <= i < self.keys@.len() ==> (#[trigger] self.descriptors@[i]).key == self.keys@[i]
                && instance_layout_wf(self.descriptors@[i].instance_layout)
        &&& forall|i: int, j: int|
            0 <= i < j < self.keys@.len() ==> self.keys@[i] != self.keys@[j]
    }

    pub open spec fn has_key(self, key: PipelineKey) -> bool {
        self.keys@.contains(key)
    }

    pub fn new() -> (c: SpecializedPipelines)
        ensures
            c.wf(),
            c.keys@ == Seq::<PipelineKey>::empty(),
    {
        SpecializedPipelines { keys: Vec::new(), descriptors: Vec::new() }
    }

    /// Look the key up; build and cache the pipeline only if it is new.
    /// A key already in the cache leaves the cache untouched, so the id
    /// returned for a key never changes.
    pub fn specialize(&mut self, pipeline: &GlcRenderingPipeline, key: PipelineKey) -> (id: usize)
        requires
            old(self).wf(),
        ensures
            final(self).wf(),
            id < final(self).keys@.len(),
            final(self).keys@[id as int] == key,
            old(self).has_key(key) ==> *final(self) == *old(self),
            !old(self).has_key(key) ==> final(self).keys@ == old(self).keys@.push(key) && id
                == old(self).keys@.len(),
    {
        let n = self.keys.len();
        let mut i: usize = 0;
        while i < n
            invariant
                *self == *old(self),
                old(self).wf(),
                n == self.keys@.len(),
                i <= n,
                forall|j: int| 0 <= j < i ==> self.keys@[j] != key,
            decreases n - i,
        {
            if self.keys[i] == key {
                return i;
            }
            i += 1;
        }
        let descriptor = pipeline.specialize(key);
        self.keys.push(key);
        self.descriptors.push(descriptor);
        proof {
            assert(!old(self).keys@.contains(key));
        }
        n
    }
}

/// One enqueued transparent-phase draw item: which entity to draw and with
/// which cached pipeline.
#[derive(Clone, Copy, PartialEq, Eq, Structural, Debug)]
pub struct Transparent3dItem {
    pub entity: usize,
    pub pipeline: usize,
}

/// Render queue, once per frame: specialize (or reuse) the pipeline for the
/// current antialiasing sample count and triangle-list topology, and enqueue
/// one draw item per instanced entity, all referencing that pipeline.
pub fn glc_render_queue(
    pipelines: &mut SpecializedPipelines,
    rendering_pipeline: &GlcRenderingPipeline,
    msaa_samples: u32,
    entities: &Vec<usize>,
) -> (items: Vec<Transparent3dItem>)
    requires
        old(pipelines).wf(),
    ensures
        final(pipelines).wf(),
        final(pipelines).has_key(
            PipelineKey { msaa_samples, topology: PrimitiveTopology::TriangleList },
        ),
        old(pipelines).has_key(
            PipelineKey { msaa_samples, topology: PrimitiveTopology::TriangleList },
        ) ==> *final(pipelines) == *old(pipelines),
        items@.len() == entities@.len(),
        forall|i: int|
            0 <= i < items@.len() ==> (#[trigger] items@[i]).entity == entities@[i]
                && final(pipelines).keys@[items@[i].pipeline as int] == (PipelineKey {
                msaa_samples,
                topology: PrimitiveTopology::TriangleList,
            }),
{
    let key = PipelineKey { msaa_samples, topology: PrimitiveTopology::TriangleList };
    let id = pipelines.specialize(rendering_pipeline, key);
    let mut items: Vec<Transparent3dItem> = Vec::new();
    let n = entities.len();
    let mut i: usize = 0;
    while i < n
        invariant
            n == entities@.len(),
            i <= n,
            items@.len() == i,
            id < pipelines.keys@.len(),
            pipelines.keys@[id as int] == key,
            forall|j: int|
                0 <= j < i ==> (#[trigger] items@[j]).entity == entities@[j] && items@[j].pipeline
                    == id,
        decreases n - i,
    {
        items.push(Transparent3dItem { entity: entities[i], pipeline: id });
        i += 1;
    }
    items
}

/// The GPU view of the base mesh: how many indices (or vertices) one
/// instance draws.
#[derive(Clone, Copy, PartialEq, Eq, Structural, Debug)]
pub struct GpuMesh {
    pub indexed: bool,
    pub index_count: u32,
    pub vertex_count: u32,
}

/// The one indexed draw a frame issues for an entity: the base mesh bound at
/// vertex slot 0, the instance buffer at slot 1, and `instance_count` equal
/// to the prepared buffer's length.
#[derive(Clone, Copy, PartialEq, Eq, Structural, Debug)]
pub struct DrawCall {
    pub index_count: u32,
    pub instance_count: usize,
}

/// The outcome of the draw command for one item.
#[derive(Clone, Copy, PartialEq, Eq, Structural, Debug)]
pub enum RenderCommandResult {
    Success(DrawCall),
    Failure,
}

/// The draw command for one enqueued item.
pub struct GlcDrawmMeshInstanced;

impl GlcDrawmMeshInstanced {
    /// Issue the instanced draw for one item: a missing GPU representation
    /// of the base mesh fails just this item (the frame goes on); otherwise
    /// one indexed draw is issued with instance count equal to the prepared
    /// buffer's length.
    pub fn render(gpu_mesh: &Option<GpuMesh>, instance_buffer: &InstanceBuffer) -> (result:
        RenderCommandResult)
        ensures
            gpu_mesh is None <==> result is Failure,
            gpu_mesh matches Some(m) ==> result == RenderCommandResult::Success(
                DrawCall {
                    index_count: if m.indexed {
                        m.index_count
                    } else {
                        m.vertex_count
                    },
                    instance_count: instance_buffer.length,
                },
            ),
    {
        match gpu_mesh {
            None => RenderCommandResult::Failure,
            Some(m) => {
                let index_count = if m.indexed {
                    m.index_count
                } else {
                    m.vertex_count
                };
                RenderCommandResult::Success(
                    DrawCall { index_count, instance_count: instance_buffer.length },
                )
            },
        }
    }
}

} // verus!
