//! Pipeline configuration, and the generations of the size- and
//! format-dependent objects (render pass, pipeline, framebuffers) that a
//! swapchain change rebuilds.
use vstd::prelude::*;

verus! {

/// Formats of the vertex attributes.
#[derive(Clone, Copy, Debug, PartialEq, Eq, Structural)]
pub enum AttributeFormat {
    /// Two 32-bit floats.
    R32G32Sfloat,
    /// Four normalised bytes.
    R8G8B8A8Unorm,
}

/// One vertex attribute of binding 0.
#[derive(Clone, Copy, Debug, PartialEq, Eq, Structural)]
pub struct VertexAttribute {
    pub location: u32,
    pub offset: u32,
    pub format: AttributeFormat,
}

#[derive(Clone, Copy, Debug, PartialEq, Eq, Structural)]
pub enum CompareOp {
    Always,
    LessOrEqual,
}

#[derive(Clone, Copy, Debug, PartialEq, Eq, Structural)]
pub enum BlendFactor {
    One,
    OneMinusSrcAlpha,
}

/// Depth state of the pipeline.
#[derive(Clone, Copy, Debug, PartialEq, Eq, Structural)]
pub struct DepthState {
    pub test: bool,
    pub write: bool,
    pub compare: CompareOp,
}

/// The fixed configuration of the GUI pipeline: triangle lists, no culling,
/// dynamic viewport and scissor, one colour attachment loaded and stored.
#[derive(Clone, Copy, Debug, PartialEq, Eq, Structural)]
pub struct PipelineConfig {
    pub vertex_stride: u32,
    pub position: VertexAttribute,
    pub uv: VertexAttribute,
    pub color: VertexAttribute,
    pub depth: DepthState,
    pub src_color_blend: BlendFactor,
    pub dst_color_blend: BlendFactor,
    /// Bytes of push constants for the vertex stage: the surface width and
    /// height in logical units, as two f32.
    pub push_constant_size: u32,
}

/// The pipeline of a generation. The first has no depth test; a rebuild
/// after a swapchain change enables depth test and write with
/// less-or-equal, although no depth attachment exists: the two are kept
/// apart on purpose so that the difference stays visible.
pub open spec fn config_of(rebuilt: bool) -> PipelineConfig {
    PipelineConfig {
        vertex_stride: 20,
        position: VertexAttribute { location: 0, offset: 0, format: AttributeFormat::R32G32Sfloat },
        uv: VertexAttribute { location: 1, offset: 8, format: AttributeFormat::R32G32Sfloat },
        color: VertexAttribute { location: 2, offset: 16, format: AttributeFormat::R8G8B8A8Unorm },
        depth: if rebuilt {
            DepthState { test: true, write: true, compare: CompareOp::LessOrEqual }
        } else {
            DepthState { test: false, write: false, compare: CompareOp::Always }
        },
        src_color_blend: BlendFactor::One,
        dst_color_blend: BlendFactor::OneMinusSrcAlpha,
        push_constant_size: 8,
    }
}

/// The pipeline configuration for the first generation (`rebuilt` false)
/// or for one built after a swapchain change.
pub fn pipeline_config(rebuilt: bool) -> (r: PipelineConfig)
    ensures
        r == config_of(rebuilt),
{
    PipelineConfig {
        vertex_stride: 20,
        position: VertexAttribute { location: 0, offset: 0, format: AttributeFormat::R32G32Sfloat },
        uv: VertexAttribute { location: 1, offset: 8, format: AttributeFormat::R32G32Sfloat },
        color: VertexAttribute { location: 2, offset: 16, format: AttributeFormat::R8G8B8A8Unorm },
        depth: if rebuilt {
            DepthState { test: true, write: true, compare: CompareOp::LessOrEqual }
        } else {
            DepthState { test: false, write: false, compare: CompareOp::Always }
        },
        src_color_blend: BlendFactor::One,
        dst_color_blend: BlendFactor::OneMinusSrcAlpha,
        push_constant_size: 8,
    }
}

/// The presentation surface: size in physical pixels, colour format (the
/// graphics API's raw format code) and number of swapchain images.
#[derive(Clone, Copy, Debug, PartialEq, Eq, Structural)]
pub struct SurfaceConfig {
    pub width: u32,
    pub height: u32,
    pub format: i32,
    pub image_count: usize,
}

/// Whether the size- and format-dependent objects are live, and of which
/// generation.
#[derive(Clone, Copy, Debug, PartialEq, Eq, Structural)]
pub enum Phase {
    Active { generation: u64 },
    /// The objects of `generation` are torn down and their successors not
    /// built yet.
    Reconfiguring { generation: u64 },
}

/// What a teardown destroys: the render pass and pipeline of `generation`,
/// and one framebuffer and colour view per swapchain image.
#[derive(Clone, Copy, Debug, PartialEq, Eq, Structural)]
pub struct Teardown {
    pub generation: u64,
    pub framebuffers: usize,
}

/// What a rebuild creates: a render pass and a pipeline of `config` for
/// the new format, and a framebuffer and colour view of the new size per
/// swapchain image. Textures, the descriptor pool, its layout, the sampler,
/// the update template and the geometry buffers are left as they are.
#[derive(Clone, Copy, Debug, PartialEq, Eq, Structural)]
pub struct Rebuild {
    pub generation: u64,
    pub surface: SurfaceConfig,
    pub config: PipelineConfig,
}

/// The swapchain-dependent state: the surface, the phase, and how many
/// geometry buffer slots were created (one per swapchain image at
/// construction; a swapchain change does not touch them).
pub struct SwapchainState {
    surface: SurfaceConfig,
    phase: Phase,
    geometry_slots: usize,
}

impl SwapchainState {
    pub closed spec fn spec_surface(&self) -> SurfaceConfig {
        self.surface
    }

    pub closed spec fn spec_phase(&self) -> Phase {
        self.phase
    }

    pub closed spec fn spec_geometry_slots(&self) -> usize {
        self.geometry_slots
    }

    /// The state right after construction: generation 0 active, one
    /// geometry slot per swapchain image.
    pub fn new(surface: SurfaceConfig) -> (r: (SwapchainState, Rebuild))
        ensures
            r.0.spec_surface() == surface,
            r.0.spec_phase() == (Phase::Active { generation: 0 }),
            r.0.spec_geometry_slots() == surface.image_count,
            r.1 == (Rebuild { generation: 0, surface, config: config_of(false) }),
    {
        (
            SwapchainState { surface, phase: Phase::Active { generation: 0 }, geometry_slots: surface.image_count },
            Rebuild { generation: 0, surface, config: pipeline_config(false) },
        )
    }

    #[verifier::when_used_as_spec(spec_surface)]
    pub fn surface(&self) -> (r: SurfaceConfig)
        ensures
            r == self.spec_surface(),
    {
        self.surface
    }

    #[verifier::when_used_as_spec(spec_phase)]
    pub fn phase(&self) -> (r: Phase)
        ensures
            r == self.spec_phase(),
    {
        self.phase
    }

    #[verifier::when_used_as_spec(spec_geometry_slots)]
    pub fn geometry_slots(&self) -> (r: usize)
        ensures
            r == self.spec_geometry_slots(),
    {
        self.geometry_slots
    }

    /// Whether objects tagged with `generation` are the live ones.
    pub fn is_current(&self, generation: u64) -> (r: bool)
        ensures
            r == (self.spec_phase() == Phase::Active { generation }),
    {
        match self.phase {
            Phase::Active { generation: g } => g == generation,
            Phase::Reconfiguring { .. } => false,
        }
    }

    /// Whether a frame may be recorded for swapchain image `image_index`:
    /// the objects are live and the image has a framebuffer and a geometry
    /// slot.
    pub fn can_paint(&self, image_index: usize) -> (r: bool)
        ensures
            r == (self.spec_phase() is Active && image_index < self.spec_surface().image_count
                && image_index < self.spec_geometry_slots()),
    {
        match self.phase {
            Phase::Active { .. } => image_index < self.surface.image_count && image_index
                < self.geometry_slots,
            Phase::Reconfiguring { .. } => false,
        }
    }

    /// Starts a swapchain change: the live generation's render pass,
    /// pipeline, framebuffers and views are to be destroyed. The caller
    /// guarantees that no command buffer still in flight uses them. `None`,
    /// and nothing changed, when a change is already under way.
    pub fn begin_reconfigure(&mut self) -> (r: Option<Teardown>)
        ensures
            old(self).spec_phase() matches Phase::Active { generation } ==> {
                &&& r == Some(Teardown { generation, framebuffers: old(self).spec_surface().image_count })
                &&& final(self).spec_phase() == (Phase::Reconfiguring { generation })
                &&& final(self).spec_surface() == old(self).spec_surface()
                &&& final(self).spec_geometry_slots() == old(self).spec_geometry_slots()
            },
            old(self).spec_phase() is Reconfiguring ==> r is None && *final(self) == *old(self),
    {
        match self.phase {
            Phase::Active { generation } => {
                self.phase = Phase::Reconfiguring { generation };
                Some(Teardown { generation, framebuffers: self.surface.image_count })
            },
            Phase::Reconfiguring { .. } => None,
        }
    }

    /// Finishes a swapchain change for `surface`: the next generation
    /// becomes live, built for the new size and format. `None`, and nothing
    /// changed, when no change is under way or the generations are used up.
    pub fn finish_reconfigure(&mut self, surface: SurfaceConfig) -> (r: Option<Rebuild>)
        ensures
            old(self).spec_phase() is Reconfiguring && old(self).spec_phase()->Reconfiguring_generation
                < u64::MAX ==> {
                let next = (old(self).spec_phase()->Reconfiguring_generation + 1) as u64;
                &&& r == Some(Rebuild { generation: next, surface, config: config_of(true) })
                &&& final(self).spec_phase() == (Phase::Active { generation: next })
                &&& final(self).spec_surface() == surface
                &&& final(self).spec_geometry_slots() == old(self).spec_geometry_slots()
            },
            !(old(self).spec_phase() is Reconfiguring && old(self).spec_phase()->Reconfiguring_generation
                < u64::MAX) ==> r is None && *final(self) == *old(self),
    {
        match self.phase {
            Phase::Reconfiguring { generation } => {
                if generation == u64::MAX {
                    return None;
                }
                let next = generation + 1;
                self.phase = Phase::Active { generation: next };
                self.surface = surface;
                Some(Rebuild { generation: next, surface, config: pipeline_config(true) })
            },
            Phase::Active { .. } => None,
        }
    }
}

} // verus!
