//! Properties of identity pass-through and of replay planning that hold for
//! every id, every action and every command list.
use vstd::prelude::*;
use crate::identity::{passed_through, IdParts};
use crate::plan::{
    action_plan, encoder_op, encoding_plan, has_suffix, refusal_of, shader_format_of, EncoderOp,
    Op, ShaderFormat,
};
use crate::trace::{Action, Command, TraceTypes};

verus! {

/// Passing an id through twice is passing it through once, to the second
/// backend.
pub proof fn last_backend_wins(id: IdParts, first: wgpu_types::Backend, second: wgpu_types::Backend)
    ensures
        passed_through(passed_through(id, first), second) == passed_through(id, second),
{
}

/// Passing an id through to its own backend gives it back unchanged.
pub proof fn own_backend_keeps_id(id: IdParts)
    ensures
        passed_through(id, id.2) == id,
{
}

/// The actions that create a resource which the device counts references
/// to: every creation but those of bind group layouts and shader modules.
pub open spec fn creates_refcounted<T: TraceTypes>(a: Action<T>) -> bool {
    match a {
        Action::CreateBuffer(..) | Action::CreateTexture(..) | Action::CreateTextureView { .. }
        | Action::CreateSampler(..) | Action::GetSurfaceTexture { .. } | Action::CreatePipelineLayout(
            ..,
        ) | Action::CreateBindGroup(..) | Action::CreateComputePipeline { .. }
        | Action::CreateRenderPipeline { .. } | Action::CreateRenderBundle { .. }
        | Action::CreateQuerySet { .. } | Action::CreateBlas {
            ..
        } | Action::CreateTlas { .. } => true,
        _ => false,
    }
}

/// Ids are retired before creating any refcounted resource, which is every
/// resource but bind group layouts and shader modules, and before nothing
/// else: then it is the first operation of the replay, and it comes once.
pub proof fn ids_retired_before_creation<T: TraceTypes>(a: Action<T>)
    requires
        refusal_of(a) is None,
    ensures
        creates_refcounted(a) ==> action_plan(a).len() == 2 && action_plan(
            a,
        )[0] is DeviceMaintainIds && !(action_plan(a)[1] is DeviceMaintainIds),
        !creates_refcounted(a) ==> forall|i: int|
            0 <= i < action_plan(a).len() ==> !(#[trigger] action_plan(a)[i] is DeviceMaintainIds),
{
}

/// Every release of a resource is replayed by exactly one operation, the
/// release of the same id, and never retires ids: freeing destroys and
/// destroying drops.
pub proof fn releases_replay_as_one_operation<T: TraceTypes>(a: Action<T>)
    ensures
        a matches Action::FreeBuffer(id) ==> action_plan(a) == seq![Op::<T>::BufferDestroy(id)],
        a matches Action::DestroyBuffer(id) ==> action_plan(a) == seq![Op::<T>::BufferDrop(id)],
        a matches Action::FreeTexture(id) ==> action_plan(a) == seq![Op::<T>::TextureDestroy(id)],
        a matches Action::DestroyTexture(id) ==> action_plan(a) == seq![Op::<T>::TextureDrop(id)],
        a matches Action::DestroyTextureView(id) ==> action_plan(a) == seq![
            Op::<T>::TextureViewDrop(id),
        ],
        a matches Action::DestroySampler(id) ==> action_plan(a) == seq![Op::<T>::SamplerDrop(id)],
        a matches Action::DestroyBindGroupLayout(id) ==> action_plan(a) == seq![
            Op::<T>::BindGroupLayoutDrop(id),
        ],
        a matches Action::DestroyPipelineLayout(id) ==> action_plan(a) == seq![
            Op::<T>::PipelineLayoutDrop(id),
        ],
        a matches Action::DestroyBindGroup(id) ==> action_plan(a) == seq![Op::<T>::BindGroupDrop(id)],
        a matches Action::DestroyShaderModule(id) ==> action_plan(a) == seq![
            Op::<T>::ShaderModuleDrop(id),
        ],
        a matches Action::DestroyComputePipeline(id) ==> action_plan(a) == seq![
            Op::<T>::ComputePipelineDrop(id),
        ],
        a matches Action::DestroyRenderPipeline(id) ==> action_plan(a) == seq![
            Op::<T>::RenderPipelineDrop(id),
        ],
        a matches Action::DestroyRenderBundle(id) ==> action_plan(a) == seq![
            Op::<T>::RenderBundleDrop(id),
        ],
        a matches Action::DestroyQuerySet(id) ==> action_plan(a) == seq![Op::<T>::QuerySetDrop(id)],
{
}

/// Every replayable action is replayed by at least one and at most three
/// device operations.
pub proof fn replay_is_short_and_nonempty<T: TraceTypes>(a: Action<T>)
    requires
        refusal_of(a) is None,
    ensures
        1 <= action_plan(a).len() <= 3,
{
}

/// A submission of no commands submits nothing; a submission of commands
/// creates an encoder, records exactly those commands into it, and submits
/// the one command buffer that results.
pub proof fn submission_replay<T: TraceTypes>(index: u64, commands: Vec<Command<T>>)
    ensures
        commands@.len() == 0 ==> action_plan(Action::Submit(index, commands)) == seq![
            Op::<T>::QueueSubmitNothing,
        ],
        commands@.len() != 0 ==> action_plan(Action::Submit(index, commands)) == seq![
            Op::<T>::DeviceCreateCommandEncoder,
            Op::EncodeCommands(commands),
            Op::QueueSubmitEncoded,
        ],
{
}

/// Every operation that uses the encoder or the command buffer directly
/// follows the operation that makes it, and a direct buffer write directly
/// follows the wait for that buffer.
pub proof fn replay_operations_are_well_ordered<T: TraceTypes>(a: Action<T>)
    requires
        refusal_of(a) is None,
    ensures
        forall|i: int|
            0 <= i < action_plan(a).len() && (#[trigger] action_plan(a)[i]) is EncodeCommands ==> i
                >= 1 && action_plan(a)[i - 1] is DeviceCreateCommandEncoder,
        forall|i: int|
            0 <= i < action_plan(a).len() && (#[trigger] action_plan(a)[i]) is QueueSubmitEncoded
                ==> i >= 1 && action_plan(a)[i - 1] is EncodeCommands,
        forall|i: int|
            0 <= i < action_plan(a).len() && (#[trigger] action_plan(a)[i]) is DeviceSetBufferSubData
                ==> i >= 1 && action_plan(a)[i - 1] == Op::<T>::DeviceWaitForBuffer(
                action_plan(a)[i]->DeviceSetBufferSubData_id,
            ),
{
}

/// A buffer write lands at the start of its recorded range: a queued write
/// writes the whole data file there, a direct write waits for the buffer and
/// then writes as many bytes as the range holds.
pub proof fn buffer_write_replay<T: TraceTypes>(
    id: T::BufferId,
    data: String,
    range: core::ops::Range<u64>,
    queued: bool,
)
    requires
        range.start <= range.end,
    ensures
        queued ==> action_plan((Action::<T>::WriteBuffer { id, data, range, queued })) == seq![
            (Op::<T>::QueueWriteBuffer { id, data, offset: range.start }),
        ],
        !queued ==> action_plan((Action::<T>::WriteBuffer { id, data, range, queued })) == seq![
            Op::<T>::DeviceWaitForBuffer(id),
            (Op::DeviceSetBufferSubData {
                id,
                data,
                offset: range.start,
                size: (range.end - range.start) as usize,
            }),
        ],
{
}

/// Recording a command list records each command once, in order, and then
/// finishes the encoder; nothing else finishes it.
pub proof fn encoding_records_each_command_in_order<T: TraceTypes>(commands: Seq<Command<T>>)
    ensures
        encoding_plan(commands).len() == commands.len() + 1,
        forall|i: int|
            0 <= i < commands.len() ==> encoding_plan(commands)[i] == encoder_op(
                #[trigger] commands[i],
            ),
        encoding_plan(commands).last() is Finish,
        forall|i: int|
            0 <= i < commands.len() ==> !(#[trigger] encoding_plan(commands)[i] is Finish),
{
    assert forall|i: int| 0 <= i < commands.len() implies !(
    #[trigger] encoding_plan(commands)[i] is Finish) by {
        assert(encoding_plan(commands)[i] == encoder_op(commands[i]));
    }
}

/// An acceleration structure build replays the bottom-level builds it
/// recorded and no top-level build; it notes the skip exactly when top-level
/// builds were recorded.
pub proof fn top_level_builds_are_skipped<T: TraceTypes>(
    blas: Vec<T::BlasBuildEntry>,
    tlas: Vec<T::TlasBuildEntry>,
)
    ensures
        encoder_op((Command::<T>::BuildAccelerationStructuresUnsafeTlas { blas, tlas })) == (
        EncoderOp::<T>::BuildAccelerationStructures { blas, tlas_skipped: tlas@.len() != 0 }),
{
}

/// A shader module file named `*.wgsl` holds WGSL, and one named `*.ron`
/// holds a serialized module.
pub proof fn shader_format_by_extension(stem: Seq<char>)
    ensures
        shader_format_of(stem + ".wgsl"@) == Some(ShaderFormat::Wgsl),
        shader_format_of(stem + ".ron"@) == Some(ShaderFormat::Ron),
{
    reveal_strlit(".wgsl");
    reveal_strlit(".ron");
    let w = stem + ".wgsl"@;
    let r = stem + ".ron"@;
    assert(w.subrange(w.len() - 5, w.len() as int) =~= ".wgsl"@);
    assert(r.subrange(r.len() - 4, r.len() as int) =~= ".ron"@);
    assert(!has_suffix(r, ".wgsl"@)) by {
        if has_suffix(r, ".wgsl"@) {
            assert(r[r.len() - 4] == ".wgsl"@[1]);
        }
    }
}

/// Every creation is replayed by one device creation that carries the
/// recorded id, descriptor and every other recorded operand unchanged,
/// after the retirement of ids: pipelines keep their implicit layout ids,
/// texture views their parent, surface textures their surface, render
/// bundles their recorded pass.
pub proof fn creations_carry_their_recorded_operands<T: TraceTypes>(a: Action<T>)
    ensures
        a matches Action::CreateBuffer(id, desc) ==> action_plan(a) == seq![
            Op::<T>::DeviceMaintainIds,
            (Op::DeviceCreateBuffer { id, desc }),
        ],
        a matches Action::CreateTexture(id, desc) ==> action_plan(a) == seq![
            Op::<T>::DeviceMaintainIds,
            (Op::DeviceCreateTexture { id, desc }),
        ],
        (a matches Action::CreateTextureView { id, parent_id, desc } ==> action_plan(a) == seq![
            Op::<T>::DeviceMaintainIds,
            (Op::TextureCreateView { id, parent_id, desc }),
        ]),
        a matches Action::CreateSampler(id, desc) ==> action_plan(a) == seq![
            Op::<T>::DeviceMaintainIds,
            (Op::DeviceCreateSampler { id, desc }),
        ],
        (a matches Action::GetSurfaceTexture { id, parent_id } ==> action_plan(a) == seq![
            Op::<T>::DeviceMaintainIds,
            (Op::SurfaceGetCurrentTexture { id, parent_id }),
        ]),
        a matches Action::CreateBindGroupLayout(id, desc) ==> action_plan(a) == seq![
            (Op::<T>::DeviceCreateBindGroupLayout { id, desc }),
        ],
        a matches Action::CreatePipelineLayout(id, desc) ==> action_plan(a) == seq![
            Op::<T>::DeviceMaintainIds,
            (Op::DeviceCreatePipelineLayout { id, desc }),
        ],
        a matches Action::CreateBindGroup(id, desc) ==> action_plan(a) == seq![
            Op::<T>::DeviceMaintainIds,
            (Op::DeviceCreateBindGroup { id, desc }),
        ],
        (a matches Action::CreateComputePipeline { id, desc, implicit_context } ==> action_plan(a)
            == seq![
            Op::<T>::DeviceMaintainIds,
            (Op::DeviceCreateComputePipeline { id, desc, implicit_context }),
        ]),
        (a matches Action::CreateRenderPipeline { id, desc, implicit_context } ==> action_plan(a)
            == seq![
            Op::<T>::DeviceMaintainIds,
            (Op::DeviceCreateRenderPipeline { id, desc, implicit_context }),
        ]),
        (a matches Action::CreateRenderBundle { id, desc, base } ==> action_plan(a) == seq![
            Op::<T>::DeviceMaintainIds,
            (Op::RenderBundleEncoderFinish { id, desc, base }),
        ]),
        (a matches Action::CreateQuerySet { id, desc } ==> action_plan(a) == seq![
            Op::<T>::DeviceMaintainIds,
            (Op::DeviceCreateQuerySet { id, desc }),
        ]),
        (a matches Action::CreateBlas { id, desc, sizes } ==> action_plan(a) == seq![
            Op::<T>::DeviceMaintainIds,
            (Op::DeviceCreateBlas { id, desc, sizes }),
        ]),
        (a matches Action::CreateTlas { id, desc } ==> action_plan(a) == seq![
            Op::<T>::DeviceMaintainIds,
            (Op::DeviceCreateTlas { id, desc }),
        ]),
        (a matches Action::WriteTexture { to, data, layout, size } ==> action_plan(a) == seq![
            (Op::<T>::QueueWriteTexture { to, data, layout, size }),
        ]),
{
}

/// A shader module is created once, under its recorded id and descriptor,
/// from its recorded data file, read as WGSL when the file's name ends in
/// `.wgsl` and as a serialized module when it ends in `.ron` (and not in
/// `.wgsl`); ids are not retired first.
pub proof fn shader_modules_are_read_by_their_extension<T: TraceTypes>(
    id: T::ShaderModuleId,
    desc: T::ShaderModuleDescriptor,
    data: String,
)
    ensures
        has_suffix(data@, ".wgsl"@) ==> action_plan(
            (Action::<T>::CreateShaderModule { id, desc, data }),
        ) == seq![(Op::<T>::DeviceCreateShaderModule { id, desc, data, format: ShaderFormat::Wgsl })],
        has_suffix(data@, ".ron"@) && !has_suffix(data@, ".wgsl"@) ==> action_plan(
            (Action::<T>::CreateShaderModule { id, desc, data }),
        ) == seq![(Op::<T>::DeviceCreateShaderModule { id, desc, data, format: ShaderFormat::Ron })],
        !has_suffix(data@, ".wgsl"@) && !has_suffix(data@, ".ron"@) ==> refusal_of(
            (Action::<T>::CreateShaderModule { id, desc, data }),
        ) is Some,
{
}

/// Recording a command keeps every operand it was recorded with: copies
/// keep source, destination, offsets and size, clears their target and
/// range, queries their set and indices, debug groups and markers their
/// label, and passes their recorded commands and attachments (a recorded
/// depth/stencil attachment stays, and none stays none).
pub proof fn encoding_keeps_every_operand<T: TraceTypes>(c: Command<T>)
    ensures
        (c matches Command::CopyBufferToBuffer { src, src_offset, dst, dst_offset, size }
            ==> encoder_op(c) == (EncoderOp::<T>::CopyBufferToBuffer {
            src,
            src_offset,
            dst,
            dst_offset,
            size,
        })),
        (c matches Command::CopyBufferToTexture { src, dst, size } ==> encoder_op(c) == (
        EncoderOp::<T>::CopyBufferToTexture { src, dst, size })),
        (c matches Command::CopyTextureToBuffer { src, dst, size } ==> encoder_op(c) == (
        EncoderOp::<T>::CopyTextureToBuffer { src, dst, size })),
        (c matches Command::CopyTextureToTexture { src, dst, size } ==> encoder_op(c) == (
        EncoderOp::<T>::CopyTextureToTexture { src, dst, size })),
        (c matches Command::ClearBuffer { dst, offset, size } ==> encoder_op(c) == (
        EncoderOp::<T>::ClearBuffer { dst, offset, size })),
        (c matches Command::ClearTexture { dst, subresource_range } ==> encoder_op(c) == (
        EncoderOp::<T>::ClearTexture { dst, subresource_range })),
        (c matches Command::WriteTimestamp { query_set_id, query_index } ==> encoder_op(c) == (
        EncoderOp::<T>::WriteTimestamp { query_set_id, query_index })),
        (c matches Command::ResolveQuerySet {
            query_set_id,
            start_query,
            query_count,
            destination,
            destination_offset,
        } ==> encoder_op(c) == (EncoderOp::<T>::ResolveQuerySet {
            query_set_id,
            start_query,
            query_count,
            destination,
            destination_offset,
        })),
        c matches Command::PushDebugGroup(label) ==> encoder_op(c) == EncoderOp::<T>::PushDebugGroup(
            label,
        ),
        c is PopDebugGroup ==> encoder_op(c) is PopDebugGroup,
        c matches Command::InsertDebugMarker(label) ==> encoder_op(c)
            == EncoderOp::<T>::InsertDebugMarker(label),
        (c matches Command::RunComputePass { base } ==> encoder_op(c) == (
        EncoderOp::<T>::RunComputePass { base })),
        (c matches Command::RunRenderPass { base, target_colors, target_depth_stencil }
            ==> encoder_op(c) == (EncoderOp::<T>::RunRenderPass {
            base,
            target_colors,
            target_depth_stencil,
        })),
{
}

/// Debug groups are opened, closed and marked in a replayed command list
/// exactly where the recording opened, closed and marked them, with the
/// same labels: the nesting of groups is the recorded one.
pub proof fn debug_groups_nest_as_recorded<T: TraceTypes>(commands: Seq<Command<T>>)
    ensures
        forall|i: int|
            #![trigger encoding_plan(commands)[i]]
            0 <= i < commands.len() ==> (encoding_plan(commands)[i] is PushDebugGroup
                <==> commands[i] is PushDebugGroup) && (encoding_plan(commands)[i] is PopDebugGroup
                <==> commands[i] is PopDebugGroup) && (encoding_plan(commands)[i] is InsertDebugMarker
                <==> commands[i] is InsertDebugMarker) && (commands[i] matches Command::PushDebugGroup(
                label) ==> encoding_plan(commands)[i] == EncoderOp::<T>::PushDebugGroup(label)) && (
            commands[i] matches Command::InsertDebugMarker(label) ==> encoding_plan(commands)[i]
                == EncoderOp::<T>::InsertDebugMarker(label)),
{
    assert forall|i: int| 0 <= i < commands.len() implies #[trigger] encoding_plan(commands)[i]
        == encoder_op(commands[i]) by {}
}

} // verus!
