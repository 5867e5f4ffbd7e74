//! The recorded actions and commands of a trace.
//!
//! The planning only reads a few plain values of an action (the name of a
//! data file, a byte range, whether a write was queued, whether a command
//! list is empty). Everything else is carried through unchanged to the
//! operations that replay it, so its types are left to the caller: a
//! [`TraceTypes`] implementation names the id and descriptor types of the
//! graphics library that the trace was recorded against.
use vstd::prelude::*;

verus! {

/// The types of the values that a trace carries and that the planning hands
/// on to the device without reading them.
pub trait TraceTypes {
    type BufferId: Copy;
    type BufferDescriptor;
    type TextureId;
    type TextureDescriptor;
    type TextureViewId;
    type TextureViewDescriptor;
    type SamplerId;
    type SamplerDescriptor;
    type SurfaceId;
    type BindGroupLayoutId;
    type BindGroupLayoutDescriptor;
    type PipelineLayoutId;
    type PipelineLayoutDescriptor;
    type BindGroupId;
    type BindGroupDescriptor;
    type ShaderModuleId;
    type ShaderModuleDescriptor;
    type ComputePipelineId;
    type ComputePipelineDescriptor;
    type RenderPipelineId;
    type RenderPipelineDescriptor;
    type ImplicitPipelineContext;
    type RenderBundleId;
    type RenderBundleEncoderDescriptor;
    type RenderBasePass;
    type ComputeBasePass;
    type QuerySetId;
    type QuerySetDescriptor;
    type ImageCopyBuffer;
    type ImageCopyTexture;
    type ImageDataLayout;
    type Extent3d;
    type BufferSize;
    type ImageSubresourceRange;
    type ColorAttachments;
    type DepthStencilAttachment;
    type BlasId;
    type BlasDescriptor;
    type BlasSizes;
    type TlasId;
    type TlasDescriptor;
    type BlasBuildEntry;
    type TlasBuildEntry;
}

/// One recorded device-level action.
pub enum Action<T: TraceTypes> {
    /// The creation of the device; only the first action of a trace.
    Init,
    /// A surface configuration; surfaces need a window.
    ConfigureSurface,
    CreateBuffer(T::BufferId, T::BufferDescriptor),
    FreeBuffer(T::BufferId),
    DestroyBuffer(T::BufferId),
    CreateTexture(T::TextureId, T::TextureDescriptor),
    FreeTexture(T::TextureId),
    DestroyTexture(T::TextureId),
    CreateTextureView {
        id: T::TextureViewId,
        parent_id: T::TextureId,
        desc: T::TextureViewDescriptor,
    },
    DestroyTextureView(T::TextureViewId),
    CreateSampler(T::SamplerId, T::SamplerDescriptor),
    DestroySampler(T::SamplerId),
    GetSurfaceTexture { id: T::TextureId, parent_id: T::SurfaceId },
    /// A presentation of a surface texture; surfaces need a window.
    Present,
    /// A discarded surface texture; surfaces need a window.
    DiscardSurfaceTexture,
    CreateBindGroupLayout(T::BindGroupLayoutId, T::BindGroupLayoutDescriptor),
    DestroyBindGroupLayout(T::BindGroupLayoutId),
    CreatePipelineLayout(T::PipelineLayoutId, T::PipelineLayoutDescriptor),
    DestroyPipelineLayout(T::PipelineLayoutId),
    CreateBindGroup(T::BindGroupId, T::BindGroupDescriptor),
    DestroyBindGroup(T::BindGroupId),
    /// A shader module whose source is in the data file `data`.
    CreateShaderModule { id: T::ShaderModuleId, desc: T::ShaderModuleDescriptor, data: String },
    DestroyShaderModule(T::ShaderModuleId),
    CreateComputePipeline {
        id: T::ComputePipelineId,
        desc: T::ComputePipelineDescriptor,
        implicit_context: Option<T::ImplicitPipelineContext>,
    },
    DestroyComputePipeline(T::ComputePipelineId),
    CreateRenderPipeline {
        id: T::RenderPipelineId,
        desc: T::RenderPipelineDescriptor,
        implicit_context: Option<T::ImplicitPipelineContext>,
    },
    DestroyRenderPipeline(T::RenderPipelineId),
    CreateRenderBundle {
        id: T::RenderBundleId,
        desc: T::RenderBundleEncoderDescriptor,
        base: T::RenderBasePass,
    },
    DestroyRenderBundle(T::RenderBundleId),
    CreateQuerySet { id: T::QuerySetId, desc: T::QuerySetDescriptor },
    DestroyQuerySet(T::QuerySetId),
    /// A write of the bytes `range` of buffer `id` from the data file `data`.
    WriteBuffer { id: T::BufferId, data: String, range: core::ops::Range<u64>, queued: bool },
    /// A write of a texture region from the data file `data`.
    WriteTexture {
        to: T::ImageCopyTexture,
        data: String,
        layout: T::ImageDataLayout,
        size: T::Extent3d,
    },
    /// A queue submission of the commands recorded for it.
    Submit(u64, Vec<Command<T>>),
    CreateBlas { id: T::BlasId, desc: T::BlasDescriptor, sizes: T::BlasSizes },
    CreateTlas { id: T::TlasId, desc: T::TlasDescriptor },
}

/// One recorded command of a command buffer.
pub enum Command<T: TraceTypes> {
    CopyBufferToBuffer {
        src: T::BufferId,
        src_offset: u64,
        dst: T::BufferId,
        dst_offset: u64,
        size: u64,
    },
    CopyBufferToTexture { src: T::ImageCopyBuffer, dst: T::ImageCopyTexture, size: T::Extent3d },
    CopyTextureToBuffer { src: T::ImageCopyTexture, dst: T::ImageCopyBuffer, size: T::Extent3d },
    CopyTextureToTexture { src: T::ImageCopyTexture, dst: T::ImageCopyTexture, size: T::Extent3d },
    ClearBuffer { dst: T::BufferId, offset: u64, size: Option<T::BufferSize> },
    ClearTexture { dst: T::TextureId, subresource_range: T::ImageSubresourceRange },
    WriteTimestamp { query_set_id: T::QuerySetId, query_index: u32 },
    ResolveQuerySet {
        query_set_id: T::QuerySetId,
        start_query: u32,
        query_count: u32,
        destination: T::BufferId,
        destination_offset: u64,
    },
    PushDebugGroup(String),
    PopDebugGroup,
    InsertDebugMarker(String),
    RunComputePass { base: T::ComputeBasePass },
    RunRenderPass {
        base: T::RenderBasePass,
        target_colors: T::ColorAttachments,
        target_depth_stencil: Option<T::DepthStencilAttachment>,
    },
    /// A build of bottom-level and top-level acceleration structures.
    BuildAccelerationStructuresUnsafeTlas {
        blas: Vec<T::BlasBuildEntry>,
        tlas: Vec<T::TlasBuildEntry>,
    },
}

} // verus!
