use player::identity::{IdentityPassThrough, IdentityPassThroughFactory};
use player::plan::{
    ends_with, encode_command, plan_action, plan_commands, refusal, shader_format, EncoderOp, Op,
    Refusal, ShaderFormat,
};
use player::shader::{shader_source, ShaderSourceError};
use player::trace::{Action, Command, TraceTypes};
use wgpu_core::pipeline::ShaderModuleSource;
use wgpu_types::Backend;

/// Stand-in payloads: ids are numbers, descriptors are labels.
struct Fake;

impl TraceTypes for Fake {
    type BufferId = u64;
    type BufferDescriptor = &'static str;
    type TextureId = u64;
    type TextureDescriptor = &'static str;
    type TextureViewId = u64;
    type TextureViewDescriptor = &'static str;
    type SamplerId = u64;
    type SamplerDescriptor = &'static str;
    type SurfaceId = u64;
    type BindGroupLayoutId = u64;
    type BindGroupLayoutDescriptor = &'static str;
    type PipelineLayoutId = u64;
    type PipelineLayoutDescriptor = &'static str;
    type BindGroupId = u64;
    type BindGroupDescriptor = &'static str;
    type ShaderModuleId = u64;
    type ShaderModuleDescriptor = &'static str;
    type ComputePipelineId = u64;
    type ComputePipelineDescriptor = &'static str;
    type RenderPipelineId = u64;
    type RenderPipelineDescriptor = &'static str;
    type ImplicitPipelineContext = u64;
    type RenderBundleId = u64;
    type RenderBundleEncoderDescriptor = &'static str;
    type RenderBasePass = &'static str;
    type ComputeBasePass = &'static str;
    type QuerySetId = u64;
    type QuerySetDescriptor = &'static str;
    type ImageCopyBuffer = &'static str;
    type ImageCopyTexture = &'static str;
    type ImageDataLayout = &'static str;
    type Extent3d = (u32, u32, u32);
    type BufferSize = u64;
    type ImageSubresourceRange = &'static str;
    type ColorAttachments = Vec<&'static str>;
    type DepthStencilAttachment = &'static str;
    type BlasId = u64;
    type BlasDescriptor = &'static str;
    type BlasSizes = u32;
    type TlasId = u64;
    type TlasDescriptor = &'static str;
    type BlasBuildEntry = u32;
    type TlasBuildEntry = u32;
}

fn plan(action: Action<Fake>) -> Vec<Op<Fake>> {
    assert!(refusal(&action).is_none());
    plan_action(action)
}

fn starts_with_maintain(ops: &[Op<Fake>]) -> bool {
    matches!(ops.first(), Some(Op::DeviceMaintainIds))
        && !ops[1..].iter().any(|op| matches!(op, Op::DeviceMaintainIds))
}

fn maintains(ops: &[Op<Fake>]) -> bool {
    ops.iter().any(|op| matches!(op, Op::DeviceMaintainIds))
}

#[test]
fn pass_through_keeps_index_and_epoch() {
    let filter: IdentityPassThrough<u64> = IdentityPassThroughFactory.spawn();
    assert_eq!(filter.process((7, 3, Backend::Vulkan), Backend::Gl), (7, 3, Backend::Gl));
    assert_eq!(filter.process((0, 1, Backend::Empty), Backend::Metal), (0, 1, Backend::Metal));
}

#[test]
fn pass_through_last_backend_wins() {
    let filter: IdentityPassThrough<u64> = IdentityPassThroughFactory.spawn();
    let once = filter.process((12, 5, Backend::Dx12), Backend::Vulkan);
    let twice = filter.process(once, Backend::Dx11);
    assert_eq!(twice, filter.process((12, 5, Backend::Dx12), Backend::Dx11));
    assert_eq!(filter.process((12, 5, Backend::Dx12), Backend::Dx12), (12, 5, Backend::Dx12));
    filter.free(99);
}

#[test]
fn ends_with_compares_characters() {
    assert!(ends_with("shader.wgsl", ".wgsl"));
    assert!(ends_with("shader.wgsl", ""));
    assert!(ends_with("", ""));
    assert!(!ends_with("", "a"));
    assert!(!ends_with("shader.wgsl", ".ron"));
    assert!(!ends_with("wgsl", ".wgsl"));
    assert!(ends_with("üñï.ron", ".ron"));
    assert!(!ends_with("x.rön", ".ron"));
}

#[test]
fn shader_format_follows_extension() {
    assert_eq!(shader_format("data1.wgsl"), Some(ShaderFormat::Wgsl));
    assert_eq!(shader_format("data2.ron"), Some(ShaderFormat::Ron));
    assert_eq!(shader_format("a.wgsl.ron"), Some(ShaderFormat::Ron));
    assert_eq!(shader_format("a.ron.wgsl"), Some(ShaderFormat::Wgsl));
    assert_eq!(shader_format(".wgsl"), Some(ShaderFormat::Wgsl));
    assert_eq!(shader_format("data3.spv"), None);
    assert_eq!(shader_format("wgsl"), None);
    assert_eq!(shader_format(""), None);
}

#[test]
fn refusals_are_exact() {
    assert_eq!(refusal(&Action::<Fake>::Init), Some(Refusal::InitNotFirst));
    assert_eq!(refusal(&Action::<Fake>::ConfigureSurface), Some(Refusal::SurfaceAction));
    assert_eq!(refusal(&Action::<Fake>::Present), Some(Refusal::SurfaceAction));
    assert_eq!(refusal(&Action::<Fake>::DiscardSurfaceTexture), Some(Refusal::SurfaceAction));
    let shader = Action::<Fake>::CreateShaderModule { id: 1, desc: "s", data: "data1.spv".to_string() };
    assert_eq!(refusal(&shader), Some(Refusal::UnknownShaderFormat));
    let shader = Action::<Fake>::CreateShaderModule { id: 1, desc: "s", data: "data1.wgsl".to_string() };
    assert_eq!(refusal(&shader), None);
    let inverted = Action::<Fake>::WriteBuffer { id: 2, data: "d.bin".to_string(), range: 8..4, queued: true };
    assert_eq!(refusal(&inverted), Some(Refusal::InvertedWriteRange));
    let empty = Action::<Fake>::WriteBuffer { id: 2, data: "d.bin".to_string(), range: 4..4, queued: false };
    assert_eq!(refusal(&empty), None);
    assert_eq!(refusal(&Action::<Fake>::DestroyBuffer(3)), None);
    assert_eq!(refusal(&Action::<Fake>::Submit(0, Vec::new())), None);
}

#[test]
fn buffer_creation_retires_ids_first() {
    let ops = plan(Action::CreateBuffer(5, "vertices"));
    assert_eq!(ops.len(), 2);
    assert!(matches!(ops[0], Op::DeviceMaintainIds));
    assert!(matches!(ops[1], Op::DeviceCreateBuffer { id: 5, desc: "vertices" }));
}

#[test]
fn creations_retire_ids_once_and_first() {
    let creations: Vec<Action<Fake>> = vec![
        Action::CreateBuffer(1, "b"),
        Action::CreateTexture(2, "t"),
        Action::CreateTextureView { id: 3, parent_id: 2, desc: "v" },
        Action::CreateSampler(4, "s"),
        Action::GetSurfaceTexture { id: 5, parent_id: 6 },
        Action::CreatePipelineLayout(7, "pl"),
        Action::CreateBindGroup(8, "bg"),
        Action::CreateComputePipeline { id: 9, desc: "cp", implicit_context: None },
        Action::CreateRenderPipeline { id: 10, desc: "rp", implicit_context: Some(11) },
        Action::CreateRenderBundle { id: 15, desc: "rb", base: "pass" },
        Action::CreateQuerySet { id: 12, desc: "qs" },
        Action::CreateBlas { id: 13, desc: "blas", sizes: 2 },
        Action::CreateTlas { id: 14, desc: "tlas" },
    ];
    for action in creations {
        let ops = plan(action);
        assert_eq!(ops.len(), 2);
        assert!(starts_with_maintain(&ops));
    }
}

#[test]
fn other_actions_do_not_retire_ids() {
    let actions: Vec<Action<Fake>> = vec![
        Action::CreateBindGroupLayout(1, "bgl"),
        Action::CreateShaderModule { id: 2, desc: "sm", data: "data1.wgsl".to_string() },
        Action::FreeBuffer(4),
        Action::DestroyBuffer(4),
        Action::FreeTexture(5),
        Action::DestroyTexture(5),
        Action::DestroyTextureView(6),
        Action::DestroySampler(7),
        Action::DestroyBindGroupLayout(8),
        Action::DestroyPipelineLayout(9),
        Action::DestroyBindGroup(10),
        Action::DestroyShaderModule(11),
        Action::DestroyComputePipeline(12),
        Action::DestroyRenderPipeline(13),
        Action::DestroyRenderBundle(14),
        Action::DestroyQuerySet(15),
        Action::WriteBuffer { id: 16, data: "d.bin".to_string(), range: 0..4, queued: false },
        Action::WriteTexture { to: "t", data: "t.bin".to_string(), layout: "l", size: (1, 1, 1) },
        Action::Submit(1, vec![Command::PopDebugGroup]),
    ];
    for action in actions {
        let ops = plan(action);
        assert!(!ops.is_empty() && ops.len() <= 3);
        assert!(!maintains(&ops));
    }
}

#[test]
fn releases_take_one_operation_on_the_same_id() {
    assert!(matches!(plan(Action::FreeBuffer(4)).as_slice(), [Op::BufferDestroy(4)]));
    assert!(matches!(plan(Action::DestroyBuffer(4)).as_slice(), [Op::BufferDrop(4)]));
    assert!(matches!(plan(Action::FreeTexture(5)).as_slice(), [Op::TextureDestroy(5)]));
    assert!(matches!(plan(Action::DestroyTexture(5)).as_slice(), [Op::TextureDrop(5)]));
    assert!(matches!(plan(Action::DestroyTextureView(6)).as_slice(), [Op::TextureViewDrop(6)]));
    assert!(matches!(plan(Action::DestroySampler(7)).as_slice(), [Op::SamplerDrop(7)]));
    assert!(matches!(plan(Action::DestroyBindGroupLayout(8)).as_slice(), [Op::BindGroupLayoutDrop(8)]));
    assert!(matches!(plan(Action::DestroyPipelineLayout(9)).as_slice(), [Op::PipelineLayoutDrop(9)]));
    assert!(matches!(plan(Action::DestroyBindGroup(10)).as_slice(), [Op::BindGroupDrop(10)]));
    assert!(matches!(plan(Action::DestroyShaderModule(11)).as_slice(), [Op::ShaderModuleDrop(11)]));
    assert!(matches!(plan(Action::DestroyComputePipeline(12)).as_slice(), [Op::ComputePipelineDrop(12)]));
    assert!(matches!(plan(Action::DestroyRenderPipeline(13)).as_slice(), [Op::RenderPipelineDrop(13)]));
    assert!(matches!(plan(Action::DestroyRenderBundle(14)).as_slice(), [Op::RenderBundleDrop(14)]));
    assert!(matches!(plan(Action::DestroyQuerySet(15)).as_slice(), [Op::QuerySetDrop(15)]));
}

#[test]
fn shader_module_is_created_with_its_format() {
    let ops = plan(Action::CreateShaderModule { id: 2, desc: "sm", data: "data7.ron".to_string() });
    match ops.as_slice() {
        [Op::DeviceCreateShaderModule { id: 2, desc: "sm", data, format: ShaderFormat::Ron }] => {
            assert_eq!(data, "data7.ron")
        }
        _ => panic!("unexpected plan"),
    }
}

#[test]
fn queued_buffer_write_writes_whole_file_at_range_start() {
    let ops = plan(Action::WriteBuffer { id: 3, data: "data2.bin".to_string(), range: 16..48, queued: true });
    match ops.as_slice() {
        [Op::QueueWriteBuffer { id: 3, data, offset: 16 }] => assert_eq!(data, "data2.bin"),
        _ => panic!("unexpected plan"),
    }
}

#[test]
fn direct_buffer_write_waits_then_writes_range_length() {
    let ops = plan(Action::WriteBuffer { id: 3, data: "data2.bin".to_string(), range: 16..48, queued: false });
    match ops.as_slice() {
        [Op::DeviceWaitForBuffer(3), Op::DeviceSetBufferSubData { id: 3, data, offset: 16, size: 32 }] => {
            assert_eq!(data, "data2.bin")
        }
        _ => panic!("unexpected plan"),
    }
    let ops = plan(Action::WriteBuffer { id: 9, data: "e.bin".to_string(), range: 5..5, queued: false });
    assert!(matches!(
        ops.as_slice(),
        [Op::DeviceWaitForBuffer(9), Op::DeviceSetBufferSubData { id: 9, offset: 5, size: 0, .. }]
    ));
}

#[test]
fn texture_write_takes_one_operation_and_render_bundle_retires_ids() {
    let ops = plan(Action::WriteTexture { to: "dst", data: "t.bin".to_string(), layout: "rows", size: (4, 2, 1) });
    assert!(matches!(
        ops.as_slice(),
        [Op::QueueWriteTexture { to: "dst", layout: "rows", size: (4, 2, 1), .. }]
    ));
    let ops = plan(Action::CreateRenderBundle { id: 3, desc: "rb", base: "pass" });
    assert!(matches!(
        ops.as_slice(),
        [Op::DeviceMaintainIds, Op::RenderBundleEncoderFinish { id: 3, desc: "rb", base: "pass" }]
    ));
}

#[test]
fn empty_submission_submits_nothing() {
    let ops = plan(Action::Submit(3, Vec::new()));
    assert!(matches!(ops.as_slice(), [Op::QueueSubmitNothing]));
}

#[test]
fn submission_encodes_then_submits() {
    let commands = vec![Command::<Fake>::PushDebugGroup("frame".to_string()), Command::PopDebugGroup];
    let ops = plan(Action::Submit(4, commands));
    match ops.as_slice() {
        [Op::DeviceCreateCommandEncoder, Op::EncodeCommands(recorded), Op::QueueSubmitEncoded] => {
            assert_eq!(recorded.len(), 2);
            assert!(matches!(&recorded[0], Command::PushDebugGroup(m) if m == "frame"));
            assert!(matches!(recorded[1], Command::PopDebugGroup));
        }
        _ => panic!("unexpected plan"),
    }
}

#[test]
fn commands_are_recorded_in_order_then_finished() {
    let commands: Vec<Command<Fake>> = vec![
        Command::CopyBufferToBuffer { src: 1, src_offset: 0, dst: 2, dst_offset: 8, size: 64 },
        Command::ClearBuffer { dst: 2, offset: 4, size: Some(16) },
        Command::WriteTimestamp { query_set_id: 3, query_index: 1 },
        Command::InsertDebugMarker("mark".to_string()),
        Command::RunComputePass { base: "compute" },
        Command::RunRenderPass { base: "render", target_colors: vec!["c0"], target_depth_stencil: None },
        Command::ResolveQuerySet { query_set_id: 3, start_query: 0, query_count: 2, destination: 2, destination_offset: 256 },
    ];
    let ops = plan_commands(commands);
    assert_eq!(ops.len(), 8);
    assert!(matches!(ops[0], EncoderOp::CopyBufferToBuffer { src: 1, src_offset: 0, dst: 2, dst_offset: 8, size: 64 }));
    assert!(matches!(ops[1], EncoderOp::ClearBuffer { dst: 2, offset: 4, size: Some(16) }));
    assert!(matches!(ops[2], EncoderOp::WriteTimestamp { query_set_id: 3, query_index: 1 }));
    assert!(matches!(&ops[3], EncoderOp::InsertDebugMarker(m) if m == "mark"));
    assert!(matches!(ops[4], EncoderOp::RunComputePass { base: "compute" }));
    assert!(matches!(&ops[5], EncoderOp::RunRenderPass { base: "render", target_colors, target_depth_stencil: None } if target_colors == &vec!["c0"]));
    assert!(matches!(ops[6], EncoderOp::ResolveQuerySet { query_set_id: 3, start_query: 0, query_count: 2, destination: 2, destination_offset: 256 }));
    assert!(matches!(ops[7], EncoderOp::Finish));
}

#[test]
fn no_commands_only_finish() {
    let ops = plan_commands(Vec::<Command<Fake>>::new());
    assert!(matches!(ops.as_slice(), [EncoderOp::Finish]));
}

#[test]
fn copies_and_clears_keep_their_operands() {
    assert!(matches!(
        encode_command(Command::<Fake>::CopyBufferToTexture { src: "b", dst: "t", size: (2, 2, 1) }),
        EncoderOp::CopyBufferToTexture { src: "b", dst: "t", size: (2, 2, 1) }
    ));
    assert!(matches!(
        encode_command(Command::<Fake>::CopyTextureToBuffer { src: "t", dst: "b", size: (2, 2, 1) }),
        EncoderOp::CopyTextureToBuffer { src: "t", dst: "b", size: (2, 2, 1) }
    ));
    assert!(matches!(
        encode_command(Command::<Fake>::CopyTextureToTexture { src: "t1", dst: "t2", size: (1, 1, 1) }),
        EncoderOp::CopyTextureToTexture { src: "t1", dst: "t2", size: (1, 1, 1) }
    ));
    assert!(matches!(
        encode_command(Command::<Fake>::ClearTexture { dst: 7, subresource_range: "all" }),
        EncoderOp::ClearTexture { dst: 7, subresource_range: "all" }
    ));
}

#[test]
fn top_level_builds_are_skipped_and_noted() {
    let with_tlas = encode_command(Command::<Fake>::BuildAccelerationStructuresUnsafeTlas {
        blas: vec![1, 2],
        tlas: vec![9],
    });
    match with_tlas {
        EncoderOp::BuildAccelerationStructures { blas, tlas_skipped } => {
            assert_eq!(blas, vec![1, 2]);
            assert!(tlas_skipped);
        }
        _ => panic!("unexpected operation"),
    }
    let without_tlas = encode_command(Command::<Fake>::BuildAccelerationStructuresUnsafeTlas {
        blas: vec![3],
        tlas: Vec::new(),
    });
    match without_tlas {
        EncoderOp::BuildAccelerationStructures { blas, tlas_skipped } => {
            assert_eq!(blas, vec![3]);
            assert!(!tlas_skipped);
        }
        _ => panic!("unexpected operation"),
    }
}

#[test]
fn wgsl_text_becomes_wgsl_source() {
    let code = "@compute @workgroup_size(1) fn main() {}".to_string();
    match shader_source(ShaderFormat::Wgsl, code.clone()) {
        Ok(ShaderModuleSource::Wgsl(text)) => assert_eq!(text, code),
        _ => panic!("expected a WGSL source"),
    }
}

#[test]
fn malformed_ron_is_a_parse_error() {
    match shader_source(ShaderFormat::Ron, "(types: [".to_string()) {
        Err(ShaderSourceError::Parse(_)) => {}
        _ => panic!("expected a parse error"),
    }
    match shader_source(ShaderFormat::Ron, "@compute fn main() {}".to_string()) {
        Err(ShaderSourceError::Parse(_)) => {}
        _ => panic!("expected a parse error"),
    }
}

#[test]
fn ron_module_becomes_naga_source() {
    let code = "(types: [], special_types: (ray_desc: None, ray_intersection: None), constants: [], global_variables: [], functions: [], entry_points: [])";
    match shader_source(ShaderFormat::Ron, code.to_string()) {
        Ok(ShaderModuleSource::Naga(module)) => {
            assert!(module.entry_points.is_empty());
            assert_eq!(module.functions.len(), 0);
        }
        Ok(_) => panic!("expected a parsed module"),
        Err(e) => panic!("expected the module to parse: {:?}", e),
    }
}
