use vstd::prelude::*;

verus! {

#[derive(Clone, Copy, Debug, PartialEq, Eq, Structural)]
pub enum PrimitiveTopology {
    PointList,
    LineList,
    LineStrip,
    TriangleList,
    TriangleStrip,
}

#[derive(Clone, Copy, Debug, PartialEq, Eq, Structural)]
pub enum FrontFace {
    Cw,
    Ccw,
}

#[derive(Clone, Copy, Debug, PartialEq, Eq, Structural)]
pub enum CullMode {
    Disabled,
    Front,
    Back,
}

/// Rasterizer configuration baked into a render pipeline.
#[derive(Clone, Copy, Debug, PartialEq, Eq, Structural)]
pub struct PrimitiveState {
    pub topology: PrimitiveTopology,
    pub front_face: FrontFace,
    pub cull_mode: CullMode,
    /// Clamp depth instead of clipping primitives against the depth range.
    pub unclipped_depth: bool,
    /// Draw triangle edges only.
    pub wireframe: bool,
}

impl Default for PrimitiveState {
    fn default() -> (r: PrimitiveState)
        ensures
            r == (PrimitiveState {
                topology: PrimitiveTopology::TriangleList,
                front_face: FrontFace::Ccw,
                cull_mode: CullMode::Disabled,
                unclipped_depth: false,
                wireframe: false,
            }),
    {
        PrimitiveState {
            topology: PrimitiveTopology::TriangleList,
            front_face: FrontFace::Ccw,
            cull_mode: CullMode::Disabled,
            unclipped_depth: false,
            wireframe: false,
        }
    }
}

/// Constant depth bias added to every fragment's depth.
#[derive(Clone, Copy, Debug, PartialEq, Eq, Structural)]
pub struct DepthBiasState {
    pub constant: i32,
}

#[derive(Clone, Copy, Debug, PartialEq, Eq, Structural)]
pub struct DepthStencilState {
    pub depth_write_enabled: bool,
    pub bias: DepthBiasState,
}

/// The native codes of the rasterizer state, in the driver's numbering.
#[derive(Clone, Copy, Debug, PartialEq, Eq, Structural)]
pub struct RasterState {
    pub primitive_type: u64,
    pub triangle_fill_mode: u64,
    pub front_winding: u64,
    pub cull_mode: u64,
    pub depth_clip_mode: u64,
}

pub open spec fn primitive_type_code(t: PrimitiveTopology) -> u64 {
    match t {
        PrimitiveTopology::PointList => 0,
        PrimitiveTopology::LineList => 1,
        PrimitiveTopology::LineStrip => 2,
        PrimitiveTopology::TriangleList => 3,
        PrimitiveTopology::TriangleStrip => 4,
    }
}

pub open spec fn raster_state_spec(p: PrimitiveState) -> RasterState {
    RasterState {
        primitive_type: primitive_type_code(p.topology),
        triangle_fill_mode: if p.wireframe { 1 } else { 0 },
        front_winding: match p.front_face {
            FrontFace::Cw => 0,
            FrontFace::Ccw => 1,
        },
        cull_mode: match p.cull_mode {
            CullMode::Disabled => 0,
            CullMode::Front => 1,
            CullMode::Back => 2,
        },
        depth_clip_mode: if p.unclipped_depth { 1 } else { 0 },
    }
}

/// Native primitive type for a topology.
pub fn map_primitive_topology(t: PrimitiveTopology) -> (r: u64)
    ensures
        r == primitive_type_code(t),
{
    match t {
        PrimitiveTopology::PointList => 0,
        PrimitiveTopology::LineList => 1,
        PrimitiveTopology::LineStrip => 2,
        PrimitiveTopology::TriangleList => 3,
        PrimitiveTopology::TriangleStrip => 4,
    }
}

impl RasterState {
    /// Translates a primitive state into the driver's rasterizer codes.
    pub fn from_primitive(p: &PrimitiveState) -> (r: RasterState)
        ensures
            r == raster_state_spec(*p),
    {
        RasterState {
            primitive_type: map_primitive_topology(p.topology),
            triangle_fill_mode: if p.wireframe { 1 } else { 0 },
            front_winding: match p.front_face {
                FrontFace::Cw => 0,
                FrontFace::Ccw => 1,
            },
            cull_mode: match p.cull_mode {
                CullMode::Disabled => 0,
                CullMode::Front => 1,
                CullMode::Back => 2,
            },
            depth_clip_mode: if p.unclipped_depth { 1 } else { 0 },
        }
    }
}

/// Ceiling of `domain / width`.
pub open spec fn ceil_div(domain: nat, width: nat) -> nat
    recommends
        width > 0,
{
    if domain % width == 0 {
        domain / width
    } else {
        domain / width + 1
    }
}

/// Number of workgroups of `width` threads that cover `domain` items.
pub fn dispatch_count(domain: u32, width: u32) -> (r: u32)
    requires
        width > 0,
    ensures
        r as nat == ceil_div(domain as nat, width as nat),
        (r as int) * (width as int) >= (domain as int),
        r == 0 || (r as int - 1) * (width as int) < (domain as int),
{
    let q = domain / width;
    let rem = domain % width;
    proof {
        assert(q as int * width as int + rem as int == domain as int) by (nonlinear_arith)
            requires
                q == domain / width,
                rem == domain % width,
                width > 0,
        ;
    }
    if rem == 0 {
        proof {
            assert((q as int - 1) * width as int == q as int * width as int - width as int)
                by (nonlinear_arith);
        }
        q
    } else {
        proof {
            assert((q as int + 1) * width as int == q as int * width as int + width as int)
                by (nonlinear_arith);
            assert(q < 0xffff_ffffu32) by (nonlinear_arith)
                requires
                    q as int * width as int + rem as int == domain as int,
                    0 < rem < width,
                    domain <= 0xffff_ffffu32,
            ;
        }
        q + 1
    }
}

/// A compiled compute pipeline: its native object and workgroup size.
pub struct ComputePipeline {
    raw: u64,
    workgroup_size: [u32; 3],
}

impl ComputePipeline {
    pub closed spec fn id(&self) -> u64 {
        self.raw
    }

    pub closed spec fn workgroup_size_spec(&self) -> [u32; 3] {
        self.workgroup_size
    }

    pub fn from_raw(raw: u64, workgroup_size: [u32; 3]) -> (r: ComputePipeline)
        ensures
            r.id() == raw,
            r.workgroup_size_spec() == workgroup_size,
    {
        ComputePipeline { raw, workgroup_size }
    }

    pub fn raw(&self) -> (r: u64)
        ensures
            r == self.id(),
    {
        self.raw
    }

    pub fn get_workgroup_size(&self) -> (r: [u32; 3])
        ensures
            r == self.workgroup_size_spec(),
    {
        self.workgroup_size
    }
}

/// A compiled render pipeline with its fixed rasterizer and depth state.
pub struct RenderPipeline {
    raw: u64,
    primitive: PrimitiveState,
    raster: RasterState,
    depth_stencil: Option<DepthStencilState>,
}

impl RenderPipeline {
    pub closed spec fn id(&self) -> u64 {
        self.raw
    }

    pub closed spec fn primitive_spec(&self) -> PrimitiveState {
        self.primitive
    }

    pub closed spec fn raster_spec(&self) -> RasterState {
        self.raster
    }

    pub closed spec fn depth_stencil_spec(&self) -> Option<DepthStencilState> {
        self.depth_stencil
    }

    /// Wraps a native pipeline built with `primitive` and `depth_stencil`;
    /// the rasterizer codes are derived here and never change afterwards.
    pub fn from_raw(raw: u64, primitive: PrimitiveState, depth_stencil: Option<DepthStencilState>) -> (r: RenderPipeline)
        ensures
            r.id() == raw,
            r.primitive_spec() == primitive,
            r.raster_spec() == raster_state_spec(primitive),
            r.depth_stencil_spec() == depth_stencil,
    {
        RenderPipeline { raw, primitive, raster: RasterState::from_primitive(&primitive), depth_stencil }
    }

    pub fn raw(&self) -> (r: u64)
        ensures
            r == self.id(),
    {
        self.raw
    }

    pub fn primitive(&self) -> (r: PrimitiveState)
        ensures
            r == self.primitive_spec(),
    {
        self.primitive
    }

    pub fn raster(&self) -> (r: RasterState)
        ensures
            r == self.raster_spec(),
    {
        self.raster
    }

    pub fn depth_stencil(&self) -> (r: Option<DepthStencilState>)
        ensures
            r == self.depth_stencil_spec(),
    {
        self.depth_stencil
    }
}

} // verus!
