use lame_graphics::particle::{ParticlePipelines, System, SystemDesc, PARTICLE_SIZE};
use lame_graphics::{
    dispatch_count, map_texture_format, Buffer, BufferDesc, Command, CommandEncoderDesc,
    ComputePipeline, Context, ContextDesc, EncoderError, EncoderState, Memory, NotSupportedError,
    PixelFormat, PrimitiveState, PrimitiveTopology, RenderPipeline, ResourceError,
    ResourceOptions, SoftwareDevice, StorageMode, SubmitError, Texture, TextureDesc,
    TextureFormat, TextureView, TextureViewDesc,
};

fn context() -> Context {
    Context::init(ContextDesc { validation: false }, true).unwrap()
}

fn buffer_desc(name: &str, size: u64, memory: Memory) -> BufferDesc {
    BufferDesc { name: name.to_string(), size, memory }
}

fn encoder_desc() -> CommandEncoderDesc {
    CommandEncoderDesc { name: "frame".to_string() }
}

#[test]
fn init_without_device_is_not_supported() {
    let r = Context::init(ContextDesc { validation: true }, false);
    assert!(matches!(r, Err(NotSupportedError)));
}

#[test]
fn init_keeps_validation_flag() {
    let c = Context::init(ContextDesc { validation: true }, true).unwrap();
    assert!(c.validation());
}

#[test]
fn fill_submit_destroy_scenario() {
    let mut ctx = context();
    let desc = buffer_desc("p", 1024, Memory::Device);
    let plan = Context::plan_buffer(&desc);
    assert_eq!(plan.size, 1024);
    assert_eq!(plan.options.bits(), 32);
    assert_eq!(plan.label.as_deref(), Some("p"));
    let buf = ctx.create_buffer(&desc, 0x1000).unwrap();
    assert_eq!(buf.raw(), 0x1000);
    let mut enc = ctx.create_command_encoder(encoder_desc());
    enc.begin(0x2000).unwrap();
    let mut pass = enc.transfer().unwrap();
    pass.fill_buffer(buf, 1024, 0).unwrap();
    enc.end_transfer(pass).unwrap();
    let sub = ctx.submit(&mut enc).unwrap();
    assert_eq!(sub.raw, 0x2000);
    assert_eq!(sub.commands.len(), 1);
    assert!(matches!(
        sub.commands[0],
        Command::FillBuffer { buffer: 0x1000, size: 1024, value: 0 }
    ));
    assert_eq!(enc.state(), EncoderState::Submitted);
    assert_eq!(ctx.destroy_buffer(buf), Ok(()));
}

#[test]
fn double_destroy_is_refused() {
    for memory in [Memory::Device, Memory::Shared, Memory::Upload] {
        let mut ctx = context();
        let buf = ctx.create_buffer(&buffer_desc("b", 16, memory), 7).unwrap();
        assert!(ctx.is_live_buffer(buf));
        assert_eq!(ctx.destroy_buffer(buf), Ok(()));
        assert!(!ctx.is_live_buffer(buf));
        assert_eq!(ctx.destroy_buffer(buf), Err(ResourceError::NotLive));
    }
}

#[test]
fn buffer_info_is_recorded() {
    let mut ctx = context();
    let buf = ctx.create_buffer(&buffer_desc("", 64, Memory::Upload), 9).unwrap();
    let info = ctx.buffer_info(buf).unwrap();
    assert_eq!(info.size, 64);
    assert_eq!(info.memory, Memory::Upload);
    assert!(ctx.buffer_info(Buffer::from_raw(10)).is_none());
}

#[test]
fn create_buffer_errors() {
    let mut ctx = context();
    let desc = buffer_desc("x", 4, Memory::Shared);
    assert_eq!(ctx.create_buffer(&desc, 0), Err(ResourceError::DeviceError));
    ctx.create_buffer(&desc, 5).unwrap();
    assert_eq!(ctx.create_buffer(&desc, 5), Err(ResourceError::AlreadyRegistered));
}

#[test]
fn null_handles_are_refused() {
    let mut ctx = context();
    assert!(Buffer::default().is_null());
    assert_eq!(Buffer::default(), Buffer::default());
    assert_eq!(Texture::default(), Texture::default());
    assert_eq!(TextureView::default(), TextureView::default());
    assert_ne!(Buffer::default(), Buffer::from_raw(1));
    assert!(Texture::default().is_null());
    assert!(TextureView::default().is_null());
    assert_eq!(ctx.destroy_buffer(Buffer::default()), Err(ResourceError::NullHandle));
    assert_eq!(ctx.destroy_texture(Texture::default()), Err(ResourceError::NullHandle));
    assert_eq!(
        ctx.destroy_texture_view(TextureView::default()),
        Err(ResourceError::NullHandle)
    );
    let mut enc = ctx.create_command_encoder(encoder_desc());
    enc.begin(1).unwrap();
    let mut pass = enc.transfer().unwrap();
    assert_eq!(pass.fill_buffer(Buffer::default(), 4, 0), Err(EncoderError::NullHandle));
    enc.end_transfer(pass).unwrap();
    let sub = ctx.submit(&mut enc).unwrap();
    assert!(sub.commands.is_empty());
    let view_desc = TextureViewDesc {
        name: String::new(),
        texture: Texture::default(),
        format: TextureFormat::Rgba8Unorm,
    };
    assert_eq!(ctx.create_texture_view(&view_desc, 3), Err(ResourceError::NullHandle));
}

#[test]
fn submit_never_begun_is_refused() {
    let ctx = context();
    let mut enc = ctx.create_command_encoder(encoder_desc());
    assert_eq!(enc.state(), EncoderState::Empty);
    assert_eq!(
        ctx.submit(&mut enc).err(),
        Some(SubmitError::Encoder(EncoderError::NotRecording))
    );
    assert_eq!(enc.state(), EncoderState::Empty);
}

#[test]
fn submit_begun_without_passes_is_empty() {
    let ctx = context();
    let mut enc = ctx.create_command_encoder(encoder_desc());
    enc.begin(11).unwrap();
    let sub = ctx.submit(&mut enc).unwrap();
    assert_eq!(sub.raw, 11);
    assert!(sub.commands.is_empty());
    assert_eq!(enc.raw(), None);
}

#[test]
fn submit_twice_is_refused() {
    let ctx = context();
    let mut enc = ctx.create_command_encoder(encoder_desc());
    enc.begin(11).unwrap();
    ctx.submit(&mut enc).unwrap();
    assert_eq!(
        ctx.submit(&mut enc).err(),
        Some(SubmitError::Encoder(EncoderError::AlreadySubmitted))
    );
    assert_eq!(enc.begin(12), Err(EncoderError::AlreadySubmitted));
    assert!(matches!(enc.transfer(), Err(EncoderError::AlreadySubmitted)));
}

#[test]
fn encoder_state_errors() {
    let ctx = context();
    let mut enc = ctx.create_command_encoder(encoder_desc());
    assert!(matches!(enc.compute(), Err(EncoderError::NotRecording)));
    assert_eq!(enc.begin(0), Err(EncoderError::NullHandle));
    enc.begin(3).unwrap();
    assert_eq!(enc.begin(4), Err(EncoderError::AlreadyRecording));
    let pass = enc.render().unwrap();
    assert!(matches!(enc.transfer(), Err(EncoderError::PassOpen)));
    assert_eq!(
        ctx.submit(&mut enc).err(),
        Some(SubmitError::Encoder(EncoderError::PassOpen))
    );
    enc.end_render(pass).unwrap();
    let stray = {
        let mut other = ctx.create_command_encoder(encoder_desc());
        other.begin(5).unwrap();
        other.transfer().unwrap()
    };
    assert_eq!(enc.end_transfer(stray), Err(EncoderError::NoPassOpen));
}

#[test]
fn submit_refuses_fill_of_dead_or_short_buffer() {
    let mut ctx = context();
    let buf = ctx.create_buffer(&buffer_desc("b", 8, Memory::Shared), 40).unwrap();
    let mut enc = ctx.create_command_encoder(encoder_desc());
    enc.begin(41).unwrap();
    let mut pass = enc.transfer().unwrap();
    pass.fill_buffer(buf, 9, 1).unwrap();
    enc.end_transfer(pass).unwrap();
    assert_eq!(ctx.submit(&mut enc).err(), Some(SubmitError::InvalidCommand));
    assert_eq!(enc.state(), EncoderState::Recording);

    let mut enc2 = ctx.create_command_encoder(encoder_desc());
    enc2.begin(42).unwrap();
    let mut pass = enc2.transfer().unwrap();
    pass.fill_buffer(buf, 8, 1).unwrap();
    enc2.end_transfer(pass).unwrap();
    ctx.destroy_buffer(buf).unwrap();
    assert_eq!(ctx.submit(&mut enc2).err(), Some(SubmitError::InvalidCommand));
}

#[test]
fn passes_keep_call_order() {
    let mut ctx = context();
    let a = ctx.create_buffer(&buffer_desc("a", 8, Memory::Shared), 100).unwrap();
    let b = ctx.create_buffer(&buffer_desc("b", 8, Memory::Shared), 200).unwrap();
    let mut enc = ctx.create_command_encoder(encoder_desc());
    enc.begin(1).unwrap();
    let mut t = enc.transfer().unwrap();
    t.fill_buffer(a, 8, 1).unwrap();
    t.fill_buffer(b, 4, 2).unwrap();
    enc.end_transfer(t).unwrap();
    let mut c = enc.compute().unwrap();
    assert_eq!(c.dispatch([1, 1, 1]), Err(EncoderError::NoPipeline));
    c.with(&ComputePipeline::from_raw(300, [8, 1, 1]));
    c.dispatch([2, 3, 4]).unwrap();
    enc.end_compute(c).unwrap();
    let mut r = enc.render().unwrap();
    assert_eq!(r.draw(0, 4, 1), Err(EncoderError::NoPipeline));
    let strip = PrimitiveState { topology: PrimitiveTopology::TriangleStrip, ..Default::default() };
    r.with(&RenderPipeline::from_raw(400, strip, None));
    r.draw(0, 4, 10).unwrap();
    enc.end_render(r).unwrap();
    let cmds = enc.commands();
    assert_eq!(cmds.len(), 4);
    assert!(matches!(cmds[0], Command::FillBuffer { buffer: 100, size: 8, value: 1 }));
    assert!(matches!(cmds[1], Command::FillBuffer { buffer: 200, size: 4, value: 2 }));
    assert!(matches!(cmds[2], Command::Dispatch { pipeline: 300, groups: [2, 3, 4] }));
    assert!(matches!(
        cmds[3],
        Command::Draw {
            pipeline: 400,
            topology: PrimitiveTopology::TriangleStrip,
            start_vertex: 0,
            vertex_count: 4,
            instance_count: 10
        }
    ));
    assert!(ctx.submit(&mut enc).is_ok());
}

#[test]
fn resource_options_per_memory() {
    let d = ResourceOptions::for_memory(Memory::Device);
    assert_eq!(d.storage, StorageMode::Private);
    assert!(!d.write_combined);
    assert_eq!(d.bits(), 32);
    assert_eq!(ResourceOptions::for_memory(Memory::Shared).bits(), 0);
    let u = ResourceOptions::for_memory(Memory::Upload);
    assert_eq!(u.storage, StorageMode::Shared);
    assert!(u.write_combined);
    assert_eq!(u.bits(), 1);
}

#[test]
fn empty_name_gets_no_label() {
    let plan = Context::plan_buffer(&buffer_desc("", 4, Memory::Upload));
    assert!(plan.label.is_none());
    assert_eq!(plan.options.bits(), 1);
}

#[test]
fn texture_format_maps_to_native_code() {
    let f = map_texture_format(TextureFormat::Rgba8Unorm);
    assert_eq!(f, PixelFormat::Rgba8Unorm);
    assert_eq!(f.code(), 70);
}

fn texture_desc(width: u32, height: u32, mips: u32) -> TextureDesc {
    TextureDesc {
        name: "t".to_string(),
        format: TextureFormat::Rgba8Unorm,
        width,
        height,
        mip_level_count: mips,
    }
}

#[test]
fn mip_chain_lengths() {
    assert_eq!(lame_graphics::context::mip_chain_length(0), 1);
    assert_eq!(lame_graphics::context::mip_chain_length(1), 1);
    assert_eq!(lame_graphics::context::mip_chain_length(2), 2);
    assert_eq!(lame_graphics::context::mip_chain_length(256), 9);
    assert_eq!(lame_graphics::context::mip_chain_length(300), 9);
    assert_eq!(lame_graphics::context::mip_chain_length(u32::MAX), 32);
}

#[test]
fn texture_and_view_lifecycle() {
    let mut ctx = context();
    assert_eq!(
        ctx.create_texture(&texture_desc(0, 4, 1), 50),
        Err(ResourceError::InvalidDescriptor)
    );
    assert_eq!(
        ctx.create_texture(&texture_desc(256, 16, 10), 50),
        Err(ResourceError::InvalidDescriptor)
    );
    assert_eq!(
        ctx.create_texture(&texture_desc(256, 16, 0), 50),
        Err(ResourceError::InvalidDescriptor)
    );
    assert_eq!(ctx.create_texture(&texture_desc(256, 16, 9), 0), Err(ResourceError::DeviceError));
    let tex = ctx.create_texture(&texture_desc(256, 16, 9), 50).unwrap();
    assert!(ctx.is_live_texture(tex));
    assert_eq!(
        ctx.create_texture(&texture_desc(4, 4, 1), 50),
        Err(ResourceError::AlreadyRegistered)
    );
    let vdesc = TextureViewDesc {
        name: "v".to_string(),
        texture: tex,
        format: TextureFormat::Rgba8Unorm,
    };
    assert_eq!(ctx.create_texture_view(&vdesc, 0), Err(ResourceError::DeviceError));
    let view = ctx.create_texture_view(&vdesc, 60).unwrap();
    assert_eq!(view.raw(), 60);
    assert_eq!(ctx.create_texture_view(&vdesc, 60), Err(ResourceError::AlreadyRegistered));
    let missing = TextureViewDesc { texture: Texture::from_raw(51), ..vdesc };
    assert_eq!(ctx.create_texture_view(&missing, 61), Err(ResourceError::NotLive));
    assert_eq!(ctx.destroy_texture_view(view), Ok(()));
    assert_eq!(ctx.destroy_texture_view(view), Err(ResourceError::NotLive));
    assert_eq!(ctx.destroy_texture(tex), Ok(()));
    assert_eq!(ctx.destroy_texture(tex), Err(ResourceError::NotLive));
}

#[test]
fn dispatch_count_is_ceiling() {
    assert_eq!(dispatch_count(1000, 64), 16);
    assert_eq!(dispatch_count(1024, 64), 16);
    assert_eq!(dispatch_count(1025, 64), 17);
    assert_eq!(dispatch_count(1, 1), 1);
    assert_eq!(dispatch_count(0, 8), 0);
    assert_eq!(dispatch_count(u32::MAX, 2), 1 << 31);
    assert_eq!(dispatch_count(u32::MAX, u32::MAX), 1);
    for cap in 1..300u32 {
        for w in 1..70u32 {
            let n = dispatch_count(cap, w);
            assert!(n as u64 * w as u64 >= cap as u64);
            assert!((n as u64 - 1) * (w as u64) < cap as u64);
        }
    }
}

#[test]
fn fill_zero_reads_back_zero() {
    let mut ctx = context();
    let buf = ctx.create_buffer(&buffer_desc("z", 16, Memory::Shared), 77).unwrap();
    let mut dev = SoftwareDevice::new();
    dev.allocate(77, vec![0xAB; 16]).unwrap();
    let mut enc = ctx.create_command_encoder(encoder_desc());
    enc.begin(78).unwrap();
    let mut pass = enc.transfer().unwrap();
    pass.fill_buffer(buf, 10, 0).unwrap();
    enc.end_transfer(pass).unwrap();
    let sub = ctx.submit(&mut enc).unwrap();
    dev.execute(&sub.commands).unwrap();
    let bytes = dev.read(77).unwrap();
    assert_eq!(&bytes[..10], &[0u8; 10]);
    assert_eq!(&bytes[10..], &[0xABu8; 6]);
}

#[test]
fn software_device_errors() {
    let mut dev = SoftwareDevice::new();
    assert_eq!(dev.allocate(0, vec![1]), Err(ResourceError::NullHandle));
    dev.allocate(1, vec![1, 2]).unwrap();
    assert_eq!(dev.allocate(1, vec![3]), Err(ResourceError::AlreadyRegistered));
    let too_long = [Command::FillBuffer { buffer: 1, size: 3, value: 0 }];
    assert!(dev.execute(&too_long).is_err());
    let unknown = [Command::FillBuffer { buffer: 2, size: 1, value: 0 }];
    assert!(dev.execute(&unknown).is_err());
    assert_eq!(dev.read(1).unwrap(), vec![1, 2]);
    assert!(dev.read(2).is_none());
    let ok = [
        Command::FillBuffer { buffer: 1, size: 2, value: 9 },
        Command::Dispatch { pipeline: 5, groups: [1, 1, 1] },
        Command::FillBuffer { buffer: 1, size: 1, value: 4 },
    ];
    dev.execute(&ok).unwrap();
    assert_eq!(dev.read(1).unwrap(), vec![4, 9]);
}

fn pipelines(width: u32) -> ParticlePipelines {
    let strip = PrimitiveState { topology: PrimitiveTopology::TriangleStrip, ..Default::default() };
    ParticlePipelines {
        emit: ComputePipeline::from_raw(501, [width, 1, 1]),
        update: ComputePipeline::from_raw(502, [width, 1, 1]),
        draw: RenderPipeline::from_raw(503, strip, None),
    }
}

#[test]
fn particle_update_dispatches_sixteen_groups() {
    let mut ctx = context();
    let desc = SystemDesc { name: "fx".to_string(), capacity: 1000 };
    let sys = System::new(&mut ctx, desc, 600, pipelines(64)).unwrap();
    assert_eq!(sys.update_group_count(), 16);
    let mut enc = ctx.create_command_encoder(encoder_desc());
    enc.begin(601).unwrap();
    sys.update(&mut enc).unwrap();
    let cmds = enc.commands();
    assert_eq!(cmds.len(), 1);
    assert!(matches!(cmds[0], Command::Dispatch { pipeline: 502, groups: [16, 1, 1] }));
}

#[test]
fn particle_reset_and_delete() {
    let mut ctx = context();
    let desc = SystemDesc { name: "fx".to_string(), capacity: 1000 };
    let sys = System::new(&mut ctx, desc, 600, pipelines(64)).unwrap();
    let info = ctx.buffer_info(sys.buffer()).unwrap();
    assert_eq!(info.size, 1000 * PARTICLE_SIZE);
    assert_eq!(info.memory, Memory::Device);
    let mut enc = ctx.create_command_encoder(encoder_desc());
    enc.begin(601).unwrap();
    let mut pass = enc.transfer().unwrap();
    sys.reset(&mut pass).unwrap();
    enc.end_transfer(pass).unwrap();
    assert!(matches!(
        enc.commands()[0],
        Command::FillBuffer { buffer: 600, size: 48000, value: 0 }
    ));
    assert!(ctx.submit(&mut enc).is_ok());
    let buf = sys.buffer();
    assert_eq!(sys.delete(&mut ctx), Ok(()));
    assert!(!ctx.is_live_buffer(buf));
}

#[test]
fn particle_system_errors() {
    let mut ctx = context();
    let desc = SystemDesc { name: "fx".to_string(), capacity: 10 };
    assert!(matches!(
        System::new(&mut ctx, desc, 600, pipelines(0)),
        Err(ResourceError::InvalidDescriptor)
    ));
    let desc = SystemDesc { name: "fx".to_string(), capacity: 10 };
    assert!(matches!(
        System::new(&mut ctx, desc, 0, pipelines(8)),
        Err(ResourceError::DeviceError)
    ));
    let mut enc = ctx.create_command_encoder(encoder_desc());
    let desc = SystemDesc { name: "fx".to_string(), capacity: 10 };
    let sys = System::new(&mut ctx, desc, 600, pipelines(8)).unwrap();
    assert_eq!(sys.update(&mut enc), Err(EncoderError::NotRecording));
}

#[test]
fn raster_state_codes() {
    let p = PrimitiveState { topology: PrimitiveTopology::TriangleStrip, ..Default::default() };
    let rp = RenderPipeline::from_raw(1, p, None);
    let r = rp.raster();
    assert_eq!(r.primitive_type, 4);
    assert_eq!(r.triangle_fill_mode, 0);
    assert_eq!(r.front_winding, 1);
    assert_eq!(r.cull_mode, 0);
    assert_eq!(r.depth_clip_mode, 0);
    let w = PrimitiveState {
        topology: PrimitiveTopology::LineList,
        front_face: lame_graphics::FrontFace::Cw,
        cull_mode: lame_graphics::CullMode::Back,
        unclipped_depth: true,
        wireframe: true,
    };
    let r = lame_graphics::RasterState::from_primitive(&w);
    assert_eq!((r.primitive_type, r.triangle_fill_mode, r.front_winding, r.cull_mode, r.depth_clip_mode), (1, 1, 0, 2, 1));
}

#[test]
fn pass_from_another_encoder_is_refused() {
    let mut ctx = context();
    let buf = ctx.create_buffer(&buffer_desc("b", 8, Memory::Shared), 70).unwrap();
    let mut enc = ctx.create_command_encoder(encoder_desc());
    enc.begin(71).unwrap();
    let mut other = ctx.create_command_encoder(encoder_desc());
    other.begin(72).unwrap();
    let own = enc.transfer().unwrap();
    let mut foreign = other.transfer().unwrap();
    foreign.fill_buffer(buf, 8, 3).unwrap();
    assert_eq!(enc.end_transfer(foreign), Err(EncoderError::ForeignPass));
    assert!(enc.commands().is_empty());
    assert_eq!(enc.end_transfer(own), Ok(()));
    let sub = ctx.submit(&mut enc).unwrap();
    assert!(sub.commands.is_empty());
}

#[test]
fn pass_of_another_kind_is_refused() {
    let ctx = context();
    let mut a = ctx.create_command_encoder(encoder_desc());
    a.begin(90).unwrap();
    let mut b = ctx.create_command_encoder(encoder_desc());
    b.begin(90).unwrap();
    let render = a.render().unwrap();
    let transfer = b.transfer().unwrap();
    assert_eq!(a.end_transfer(transfer), Err(EncoderError::ForeignPass));
    assert_eq!(a.end_render(render), Ok(()));
}
