//! The device operations that replay a recorded action or command list.
//!
//! [`plan_action`] turns one replayable action into the sequence of device
//! operations that replay it, and [`plan_commands`] turns the commands of a
//! submission into the operations that record them into a command encoder.
//! [`refusal`] says which actions cannot be replayed, and why.
use vstd::prelude::*;
use vstd::string::*;
use crate::trace::{Action, Command, TraceTypes};

verus! {

/// The language of a shader source file.
#[derive(Clone, Copy, Debug, PartialEq, Eq, Structural)]
pub enum ShaderFormat {
    /// WGSL text, from a file named `*.wgsl`.
    Wgsl,
    /// A serialized shader module, from a file named `*.ron`.
    Ron,
}

/// Why an action cannot be replayed.
#[derive(Clone, Copy, Debug, PartialEq, Eq, Structural)]
pub enum Refusal {
    /// The device creation may only stand first in a trace, where the caller
    /// handles it itself.
    InitNotFirst,
    /// Surface actions need a window, which a replay does not have.
    SurfaceAction,
    /// The data file of a shader module is neither `*.wgsl` nor `*.ron`.
    UnknownShaderFormat,
    /// The byte range of a buffer write ends before it starts, so that its
    /// length, taken as `end - start`, would underflow.
    InvertedWriteRange,
}

/// One device operation of a replay.
pub enum Op<T: TraceTypes> {
    /// Let the device retire the ids of resources that are no longer used,
    /// so that a recorded id is free when it is created again.
    DeviceMaintainIds,
    DeviceCreateBuffer { id: T::BufferId, desc: T::BufferDescriptor },
    BufferDestroy(T::BufferId),
    BufferDrop(T::BufferId),
    DeviceCreateTexture { id: T::TextureId, desc: T::TextureDescriptor },
    TextureDestroy(T::TextureId),
    TextureDrop(T::TextureId),
    TextureCreateView { id: T::TextureViewId, parent_id: T::TextureId, desc: T::TextureViewDescriptor },
    TextureViewDrop(T::TextureViewId),
    DeviceCreateSampler { id: T::SamplerId, desc: T::SamplerDescriptor },
    SamplerDrop(T::SamplerId),
    SurfaceGetCurrentTexture { id: T::TextureId, parent_id: T::SurfaceId },
    DeviceCreateBindGroupLayout { id: T::BindGroupLayoutId, desc: T::BindGroupLayoutDescriptor },
    BindGroupLayoutDrop(T::BindGroupLayoutId),
    DeviceCreatePipelineLayout { id: T::PipelineLayoutId, desc: T::PipelineLayoutDescriptor },
    PipelineLayoutDrop(T::PipelineLayoutId),
    DeviceCreateBindGroup { id: T::BindGroupId, desc: T::BindGroupDescriptor },
    BindGroupDrop(T::BindGroupId),
    /// Create a shader module from the source in the data file `data`.
    DeviceCreateShaderModule {
        id: T::ShaderModuleId,
        desc: T::ShaderModuleDescriptor,
        data: String,
        format: ShaderFormat,
    },
    ShaderModuleDrop(T::ShaderModuleId),
    DeviceCreateComputePipeline {
        id: T::ComputePipelineId,
        desc: T::ComputePipelineDescriptor,
        implicit_context: Option<T::ImplicitPipelineContext>,
    },
    ComputePipelineDrop(T::ComputePipelineId),
    DeviceCreateRenderPipeline {
        id: T::RenderPipelineId,
        desc: T::RenderPipelineDescriptor,
        implicit_context: Option<T::ImplicitPipelineContext>,
    },
    RenderPipelineDrop(T::RenderPipelineId),
    /// Encode the render bundle `base` under `desc` and finish it as `id`.
    RenderBundleEncoderFinish {
        id: T::RenderBundleId,
        desc: T::RenderBundleEncoderDescriptor,
        base: T::RenderBasePass,
    },
    RenderBundleDrop(T::RenderBundleId),
    DeviceCreateQuerySet { id: T::QuerySetId, desc: T::QuerySetDescriptor },
    QuerySetDrop(T::QuerySetId),
    /// Queue a write of the whole data file `data` into buffer `id` at
    /// `offset`.
    QueueWriteBuffer { id: T::BufferId, data: String, offset: u64 },
    /// Wait until buffer `id` is idle.
    DeviceWaitForBuffer(T::BufferId),
    /// Write the first `size` bytes of the data file `data` into buffer `id`
    /// at `offset`.
    DeviceSetBufferSubData { id: T::BufferId, data: String, offset: u64, size: usize },
    /// Queue a write of the data file `data` into a texture region.
    QueueWriteTexture {
        to: T::ImageCopyTexture,
        data: String,
        layout: T::ImageDataLayout,
        size: T::Extent3d,
    },
    /// Submit no command buffer to the queue.
    QueueSubmitNothing,
    /// Create the command encoder that the next commands are recorded into.
    DeviceCreateCommandEncoder,
    /// Record the commands into the command encoder created last, and finish
    /// it into a command buffer.
    EncodeCommands(Vec<Command<T>>),
    /// Submit the command buffer finished last to the queue.
    QueueSubmitEncoded,
    DeviceCreateBlas { id: T::BlasId, desc: T::BlasDescriptor, sizes: T::BlasSizes },
    DeviceCreateTlas { id: T::TlasId, desc: T::TlasDescriptor },
}

/// One operation on a command encoder.
pub enum EncoderOp<T: TraceTypes> {
    CopyBufferToBuffer {
        src: T::BufferId,
        src_offset: u64,
        dst: T::BufferId,
        dst_offset: u64,
        size: u64,
    },
    CopyBufferToTexture { src: T::ImageCopyBuffer, dst: T::ImageCopyTexture, size: T::Extent3d },
    CopyTextureToBuffer { src: T::ImageCopyTexture, dst: T::ImageCopyBuffer, size: T::Extent3d },
    CopyTextureToTexture { src: T::ImageCopyTexture, dst: T::ImageCopyTexture, size: T::Extent3d },
    ClearBuffer { dst: T::BufferId, offset: u64, size: Option<T::BufferSize> },
    ClearTexture { dst: T::TextureId, subresource_range: T::ImageSubresourceRange },
    WriteTimestamp { query_set_id: T::QuerySetId, query_index: u32 },
    ResolveQuerySet {
        query_set_id: T::QuerySetId,
        start_query: u32,
        query_count: u32,
        destination: T::BufferId,
        destination_offset: u64,
    },
    PushDebugGroup(String),
    PopDebugGroup,
    InsertDebugMarker(String),
    RunComputePass { base: T::ComputeBasePass },
    RunRenderPass {
        base: T::RenderBasePass,
        target_colors: T::ColorAttachments,
        target_depth_stencil: Option<T::DepthStencilAttachment>,
    },
    /// Build the bottom-level acceleration structures `blas`, and no
    /// top-level one. `tlas_skipped` tells whether the trace asked for
    /// top-level builds, which a replay cannot repeat.
    BuildAccelerationStructures { blas: Vec<T::BlasBuildEntry>, tlas_skipped: bool },
    /// Finish the encoder into a command buffer.
    Finish,
}

/// Whether `s` ends with `suffix`.
pub open spec fn has_suffix(s: Seq<char>, suffix: Seq<char>) -> bool {
    suffix.len() <= s.len() && s.subrange(s.len() - suffix.len(), s.len() as int) == suffix
}

/// The format of a shader read from the data file named `data`, by the
/// file's extension.
pub open spec fn shader_format_of(data: Seq<char>) -> Option<ShaderFormat> {
    if has_suffix(data, ".wgsl"@) {
        Some(ShaderFormat::Wgsl)
    } else if has_suffix(data, ".ron"@) {
        Some(ShaderFormat::Ron)
    } else {
        None
    }
}

/// Why `a` cannot be replayed, or `None` when it can.
pub open spec fn refusal_of<T: TraceTypes>(a: Action<T>) -> Option<Refusal> {
    match a {
        Action::Init => Some(Refusal::InitNotFirst),
        Action::ConfigureSurface | Action::Present | Action::DiscardSurfaceTexture => Some(
            Refusal::SurfaceAction,
        ),
        Action::CreateShaderModule { data, .. } => if shader_format_of(data@) is None {
            Some(Refusal::UnknownShaderFormat)
        } else {
            None
        },
        Action::WriteBuffer { range, .. } => if range.end < range.start {
            Some(Refusal::InvertedWriteRange)
        } else {
            None
        },
        _ => None,
    }
}

/// The operations that replay the replayable action `a`, in order.
pub open spec fn action_plan<T: TraceTypes>(a: Action<T>) -> Seq<Op<T>> {
    match a {
        Action::CreateBuffer(id, desc) => seq![
            Op::DeviceMaintainIds,
            Op::DeviceCreateBuffer { id, desc },
        ],
        Action::FreeBuffer(id) => seq![Op::BufferDestroy(id)],
        Action::DestroyBuffer(id) => seq![Op::BufferDrop(id)],
        Action::CreateTexture(id, desc) => seq![
            Op::DeviceMaintainIds,
            Op::DeviceCreateTexture { id, desc },
        ],
        Action::FreeTexture(id) => seq![Op::TextureDestroy(id)],
        Action::DestroyTexture(id) => seq![Op::TextureDrop(id)],
        Action::CreateTextureView { id, parent_id, desc } => seq![
            Op::DeviceMaintainIds,
            Op::TextureCreateView { id, parent_id, desc },
        ],
        Action::DestroyTextureView(id) => seq![Op::TextureViewDrop(id)],
        Action::CreateSampler(id, desc) => seq![
            Op::DeviceMaintainIds,
            Op::DeviceCreateSampler { id, desc },
        ],
        Action::DestroySampler(id) => seq![Op::SamplerDrop(id)],
        Action::GetSurfaceTexture { id, parent_id } => seq![
            Op::DeviceMaintainIds,
            Op::SurfaceGetCurrentTexture { id, parent_id },
        ],
        Action::CreateBindGroupLayout(id, desc) => seq![
            Op::DeviceCreateBindGroupLayout { id, desc },
        ],
        Action::DestroyBindGroupLayout(id) => seq![Op::BindGroupLayoutDrop(id)],
        Action::CreatePipelineLayout(id, desc) => seq![
            Op::DeviceMaintainIds,
            Op::DeviceCreatePipelineLayout { id, desc },
        ],
        Action::DestroyPipelineLayout(id) => seq![Op::PipelineLayoutDrop(id)],
        Action::CreateBindGroup(id, desc) => seq![
            Op::DeviceMaintainIds,
            Op::DeviceCreateBindGroup { id, desc },
        ],
        Action::DestroyBindGroup(id) => seq![Op::BindGroupDrop(id)],
        Action::CreateShaderModule { id, desc, data } => match shader_format_of(data@) {
            Some(format) => seq![Op::DeviceCreateShaderModule { id, desc, data, format }],
            None => Seq::empty(),
        },
        Action::DestroyShaderModule(id) => seq![Op::ShaderModuleDrop(id)],
        Action::CreateComputePipeline { id, desc, implicit_context } => seq![
            Op::DeviceMaintainIds,
            Op::DeviceCreateComputePipeline { id, desc, implicit_context },
        ],
        Action::DestroyComputePipeline(id) => seq![Op::ComputePipelineDrop(id)],
        Action::CreateRenderPipeline { id, desc, implicit_context } => seq![
            Op::DeviceMaintainIds,
            Op::DeviceCreateRenderPipeline { id, desc, implicit_context },
        ],
        Action::DestroyRenderPipeline(id) => seq![Op::RenderPipelineDrop(id)],
        Action::CreateRenderBundle { id, desc, base } => seq![
            Op::DeviceMaintainIds,
            Op::RenderBundleEncoderFinish { id, desc, base },
        ],
        Action::DestroyRenderBundle(id) => seq![Op::RenderBundleDrop(id)],
        Action::CreateQuerySet { id, desc } => seq![
            Op::DeviceMaintainIds,
            Op::DeviceCreateQuerySet { id, desc },
        ],
        Action::DestroyQuerySet(id) => seq![Op::QuerySetDrop(id)],
        Action::WriteBuffer { id, data, range, queued } => if queued {
            seq![Op::QueueWriteBuffer { id, data, offset: range.start }]
        } else {
            seq![
                Op::DeviceWaitForBuffer(id),
                Op::DeviceSetBufferSubData {
                    id,
                    data,
                    offset: range.start,
                    size: (range.end - range.start) as usize,
                },
            ]
        },
        Action::WriteTexture { to, data, layout, size } => seq![
            Op::QueueWriteTexture { to, data, layout, size },
        ],
        Action::Submit(_index, commands) => if commands@.len() == 0 {
            seq![Op::QueueSubmitNothing]
        } else {
            seq![
                Op::DeviceCreateCommandEncoder,
                Op::EncodeCommands(commands),
                Op::QueueSubmitEncoded,
            ]
        },
        Action::CreateBlas { id, desc, sizes } => seq![
            Op::DeviceMaintainIds,
            Op::DeviceCreateBlas { id, desc, sizes },
        ],
        Action::CreateTlas { id, desc } => seq![
            Op::DeviceMaintainIds,
            Op::DeviceCreateTlas { id, desc },
        ],
        _ => Seq::empty(),
    }
}

/// The encoder operation that records the command `c`.
pub open spec fn encoder_op<T: TraceTypes>(c: Command<T>) -> EncoderOp<T> {
    match c {
        Command::CopyBufferToBuffer { src, src_offset, dst, dst_offset, size } =>
            EncoderOp::CopyBufferToBuffer { src, src_offset, dst, dst_offset, size },
        Command::CopyBufferToTexture { src, dst, size } => EncoderOp::CopyBufferToTexture {
            src,
            dst,
            size,
        },
        Command::CopyTextureToBuffer { src, dst, size } => EncoderOp::CopyTextureToBuffer {
            src,
            dst,
            size,
        },
        Command::CopyTextureToTexture { src, dst, size } => EncoderOp::CopyTextureToTexture {
            src,
            dst,
            size,
        },
        Command::ClearBuffer { dst, offset, size } => EncoderOp::ClearBuffer { dst, offset, size },
        Command::ClearTexture { dst, subresource_range } => EncoderOp::ClearTexture {
            dst,
            subresource_range,
        },
        Command::WriteTimestamp { query_set_id, query_index } => EncoderOp::WriteTimestamp {
            query_set_id,
            query_index,
        },
        Command::ResolveQuerySet {
            query_set_id,
            start_query,
            query_count,
            destination,
            destination_offset,
        } => EncoderOp::ResolveQuerySet {
            query_set_id,
            start_query,
            query_count,
            destination,
            destination_offset,
        },
        Command::PushDebugGroup(marker) => EncoderOp::PushDebugGroup(marker),
        Command::PopDebugGroup => EncoderOp::PopDebugGroup,
        Command::InsertDebugMarker(marker) => EncoderOp::InsertDebugMarker(marker),
        Command::RunComputePass { base } => EncoderOp::RunComputePass { base },
        Command::RunRenderPass { base, target_colors, target_depth_stencil } =>
            EncoderOp::RunRenderPass { base, target_colors, target_depth_stencil },
        Command::BuildAccelerationStructuresUnsafeTlas { blas, tlas } =>
            EncoderOp::BuildAccelerationStructures { blas, tlas_skipped: tlas@.len() != 0 },
    }
}

/// The encoder operations that record `commands`, one for each command in
/// order, and then finish the encoder.
pub open spec fn encoding_plan<T: TraceTypes>(commands: Seq<Command<T>>) -> Seq<EncoderOp<T>> {
    commands.map_values(|c: Command<T>| encoder_op(c)).push(EncoderOp::Finish)
}

/// Whether `s` ends with `suffix`.
pub fn ends_with(s: &str, suffix: &str) -> (r: bool)
    ensures
        r == has_suffix(s@, suffix@),
{
    let n = s.unicode_len();
    let m = suffix.unicode_len();
    if m > n {
        return false;
    }
    let start = n - m;
    let mut i: usize = 0;
    while i < m
        invariant
            n == s@.len(),
            m == suffix@.len(),
            m <= n,
            start == n - m,
            i <= m,
            forall|j: int| 0 <= j < i ==> s@[start + j] == suffix@[j],
        decreases m - i,
    {
        if s.get_char(start + i) != suffix.get_char(i) {
            assert(s@.subrange(start as int, n as int)[i as int] != suffix@[i as int]);
            return false;
        }
        i = i + 1;
    }
    assert(s@.subrange(start as int, n as int) =~= suffix@);
    true
}

/// The format of the shader in the data file named `data`.
pub fn shader_format(data: &str) -> (r: Option<ShaderFormat>)
    ensures
        r == shader_format_of(data@),
{
    if ends_with(data, ".wgsl") {
        Some(ShaderFormat::Wgsl)
    } else if ends_with(data, ".ron") {
        Some(ShaderFormat::Ron)
    } else {
        None
    }
}

/// Why `action` cannot be replayed, or `None` when it can.
pub fn refusal<T: TraceTypes>(action: &Action<T>) -> (r: Option<Refusal>)
    ensures
        r == refusal_of(*action),
{
    match action {
        Action::Init => Some(Refusal::InitNotFirst),
        Action::ConfigureSurface | Action::Present | Action::DiscardSurfaceTexture => Some(
            Refusal::SurfaceAction,
        ),
        Action::CreateShaderModule { data, .. } => match shader_format(data.as_str()) {
            Some(_) => None,
            None => Some(Refusal::UnknownShaderFormat),
        },
        Action::WriteBuffer { range, .. } => if range.end < range.start {
            Some(Refusal::InvertedWriteRange)
        } else {
            None
        },
        _ => None,
    }
}

/// The operations that replay `action`, in the order in which they are to be
/// carried out.
pub fn plan_action<T: TraceTypes>(action: Action<T>) -> (r: Vec<Op<T>>)
    requires
        refusal_of(action) is None,
    ensures
        r@ == action_plan(action),
{
    let ghost a = action;
    let ops = match action {
        Action::CreateBuffer(id, desc) => vec![
            Op::DeviceMaintainIds,
            Op::DeviceCreateBuffer { id, desc },
        ],
        Action::FreeBuffer(id) => vec![Op::BufferDestroy(id)],
        Action::DestroyBuffer(id) => vec![Op::BufferDrop(id)],
        Action::CreateTexture(id, desc) => vec![
            Op::DeviceMaintainIds,
            Op::DeviceCreateTexture { id, desc },
        ],
        Action::FreeTexture(id) => vec![Op::TextureDestroy(id)],
        Action::DestroyTexture(id) => vec![Op::TextureDrop(id)],
        Action::CreateTextureView { id, parent_id, desc } => vec![
            Op::DeviceMaintainIds,
            Op::TextureCreateView { id, parent_id, desc },
        ],
        Action::DestroyTextureView(id) => vec![Op::TextureViewDrop(id)],
        Action::CreateSampler(id, desc) => vec![
            Op::DeviceMaintainIds,
            Op::DeviceCreateSampler { id, desc },
        ],
        Action::DestroySampler(id) => vec![Op::SamplerDrop(id)],
        Action::GetSurfaceTexture { id, parent_id } => vec![
            Op::DeviceMaintainIds,
            Op::SurfaceGetCurrentTexture { id, parent_id },
        ],
        Action::CreateBindGroupLayout(id, desc) => vec![
            Op::DeviceCreateBindGroupLayout { id, desc },
        ],
        Action::DestroyBindGroupLayout(id) => vec![Op::BindGroupLayoutDrop(id)],
        Action::CreatePipelineLayout(id, desc) => vec![
            Op::DeviceMaintainIds,
            Op::DeviceCreatePipelineLayout { id, desc },
        ],
        Action::DestroyPipelineLayout(id) => vec![Op::PipelineLayoutDrop(id)],
        Action::CreateBindGroup(id, desc) => vec![
            Op::DeviceMaintainIds,
            Op::DeviceCreateBindGroup { id, desc },
        ],
        Action::DestroyBindGroup(id) => vec![Op::BindGroupDrop(id)],
        Action::CreateShaderModule { id, desc, data } => match shader_format(data.as_str()) {
            Some(format) => vec![Op::DeviceCreateShaderModule { id, desc, data, format }],
            None => Vec::new(),
        },
        Action::DestroyShaderModule(id) => vec![Op::ShaderModuleDrop(id)],
        Action::CreateComputePipeline { id, desc, implicit_context } => vec![
            Op::DeviceMaintainIds,
            Op::DeviceCreateComputePipeline { id, desc, implicit_context },
        ],
        Action::DestroyComputePipeline(id) => vec![Op::ComputePipelineDrop(id)],
        Action::CreateRenderPipeline { id, desc, implicit_context } => vec![
            Op::DeviceMaintainIds,
            Op::DeviceCreateRenderPipeline { id, desc, implicit_context },
        ],
        Action::DestroyRenderPipeline(id) => vec![Op::RenderPipelineDrop(id)],
        Action::CreateRenderBundle { id, desc, base } => vec![
            Op::DeviceMaintainIds,
            Op::RenderBundleEncoderFinish { id, desc, base },
        ],
        Action::DestroyRenderBundle(id) => vec![Op::RenderBundleDrop(id)],
        Action::CreateQuerySet { id, desc } => vec![
            Op::DeviceMaintainIds,
            Op::DeviceCreateQuerySet { id, desc },
        ],
        Action::DestroyQuerySet(id) => vec![Op::QuerySetDrop(id)],
        Action::WriteBuffer { id, data, range, queued } => {
            let size = (range.end - range.start) as usize;
            if queued {
                vec![Op::QueueWriteBuffer { id, data, offset: range.start }]
            } else {
                vec![
                    Op::DeviceWaitForBuffer(id),
                    Op::DeviceSetBufferSubData { id, data, offset: range.start, size },
                ]
            }
        },
        Action::WriteTexture { to, data, layout, size } => vec![
            Op::QueueWriteTexture { to, data, layout, size },
        ],
        Action::Submit(_index, commands) => if commands.len() == 0 {
            vec![Op::QueueSubmitNothing]
        } else {
            vec![
                Op::DeviceCreateCommandEncoder,
                Op::EncodeCommands(commands),
                Op::QueueSubmitEncoded,
            ]
        },
        Action::CreateBlas { id, desc, sizes } => vec![
            Op::DeviceMaintainIds,
            Op::DeviceCreateBlas { id, desc, sizes },
        ],
        Action::CreateTlas { id, desc } => vec![
            Op::DeviceMaintainIds,
            Op::DeviceCreateTlas { id, desc },
        ],
        _ => Vec::new(),
    };
    assert(ops@ =~= action_plan(a));
    ops
}

/// The encoder operation that records `command`.
pub fn encode_command<T: TraceTypes>(command: Command<T>) -> (r: EncoderOp<T>)
    ensures
        r == encoder_op(command),
{
    match command {
        Command::CopyBufferToBuffer { src, src_offset, dst, dst_offset, size } =>
            EncoderOp::CopyBufferToBuffer { src, src_offset, dst, dst_offset, size },
        Command::CopyBufferToTexture { src, dst, size } => EncoderOp::CopyBufferToTexture {
            src,
            dst,
            size,
        },
        Command::CopyTextureToBuffer { src, dst, size } => EncoderOp::CopyTextureToBuffer {
            src,
            dst,
            size,
        },
        Command::CopyTextureToTexture { src, dst, size } => EncoderOp::CopyTextureToTexture {
            src,
            dst,
            size,
        },
        Command::ClearBuffer { dst, offset, size } => EncoderOp::ClearBuffer { dst, offset, size },
        Command::ClearTexture { dst, subresource_range } => EncoderOp::ClearTexture {
            dst,
            subresource_range,
        },
        Command::WriteTimestamp { query_set_id, query_index } => EncoderOp::WriteTimestamp {
            query_set_id,
            query_index,
        },
        Command::ResolveQuerySet {
            query_set_id,
            start_query,
            query_count,
            destination,
            destination_offset,
        } => EncoderOp::ResolveQuerySet {
            query_set_id,
            start_query,
            query_count,
            destination,
            destination_offset,
        },
        Command::PushDebugGroup(marker) => EncoderOp::PushDebugGroup(marker),
        Command::PopDebugGroup => EncoderOp::PopDebugGroup,
        Command::InsertDebugMarker(marker) => EncoderOp::InsertDebugMarker(marker),
        Command::RunComputePass { base } => EncoderOp::RunComputePass { base },
        Command::RunRenderPass { base, target_colors, target_depth_stencil } =>
            EncoderOp::RunRenderPass { base, target_colors, target_depth_stencil },
        Command::BuildAccelerationStructuresUnsafeTlas { blas, tlas } => {
            let tlas_skipped = tlas.len() != 0;
            EncoderOp::BuildAccelerationStructures { blas, tlas_skipped }
        },
    }
}

/// The encoder operations that record `commands` in order and then finish
/// the encoder.
pub fn plan_commands<T: TraceTypes>(commands: Vec<Command<T>>) -> (r: Vec<EncoderOp<T>>)
    ensures
        r@ == encoding_plan(commands@),
{
    let ghost all = commands@;
    let mut rest = commands;
    let mut ops: Vec<EncoderOp<T>> = Vec::new();
    while rest.len() > 0
        invariant
            ops@.len() + rest@.len() == all.len(),
            rest@ == all.subrange(ops@.len() as int, all.len() as int),
            forall|i: int| 0 <= i < ops@.len() ==> ops@[i] == encoder_op(#[trigger] all[i]),
        decreases rest@.len(),
    {
        let ghost done = ops@.len();
        let command = rest.remove(0);
        assert(command == all[done as int]);
        ops.push(encode_command(command));
        assert(rest@ =~= all.subrange(ops@.len() as int, all.len() as int));
    }
    ops.push(EncoderOp::Finish);
    assert(ops@ =~= encoding_plan(all));
    ops
}

} // verus!
