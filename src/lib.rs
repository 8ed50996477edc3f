//! A thin GPU abstraction: resource handles, a context that tracks the
//! resources it created, command encoders with typed passes, pipelines,
//! a layout-checked argument table, and a software backend that runs the
//! recorded transfer commands on host memory.
//!
//! Native objects are named by their handle values; the calls that create
//! and release them are made by the caller, which hands the results in.
pub mod command;
pub mod context;
pub mod desc;
pub mod laws;
pub mod particle;
pub mod pipeline;
pub mod resource;
pub mod shader_data;
pub mod software;

pub use command::{
    Command, CommandEncoder, ComputeCommandEncoder, EncoderError, EncoderState, PassKind, RenderCommandEncoder,
    RenderPipelineContext, Submission, TransferCommandEncoder,
};
pub use context::{BufferInfo, BufferPlan, Context, ResourceError, SubmitError, TextureInfo};
pub use desc::{
    BufferDesc, CommandEncoderDesc, ContextDesc, Memory, NotSupportedError, TextureDesc, TextureFormat,
    TextureViewDesc,
};
pub use pipeline::{
    dispatch_count, ComputePipeline, CullMode, DepthBiasState, DepthStencilState, FrontFace,
    PrimitiveState, PrimitiveTopology, RasterState, RenderPipeline,
};
pub use resource::{map_texture_format, Buffer, PixelFormat, ResourceOptions, StorageMode, Texture, TextureView};
pub use shader_data::{BindingError, BindingLayout, BindingValue, ShaderDataEncoder};
pub use software::{ExecError, SoftwareDevice};
