use opengl::{Array, Command, Context, Error, Kind, Target, Vertex};

/// Stands in for the device: hands out fresh names and counts deletions.
struct MockDevice {
    next: u32,
    allocated: Vec<u32>,
}

impl MockDevice {
    fn new() -> Self {
        MockDevice { next: 1, allocated: Vec::new() }
    }

    fn generate(&mut self, n: usize) -> Vec<u32> {
        let ids: Vec<u32> = (self.next..self.next + n as u32).collect();
        self.next += n as u32;
        self.allocated.extend(&ids);
        ids
    }
}

fn deleted(ctx: &Context, kind: Kind) -> Vec<u32> {
    let mut out = Vec::new();
    for c in ctx.commands() {
        if let Command::Delete(k, ids) = c {
            if *k == kind {
                out.extend(ids);
            }
        }
    }
    out
}

fn delete_calls(ctx: &Context) -> usize {
    ctx.commands().iter().filter(|c| matches!(c, Command::Delete(..))).count()
}

#[test]
fn empty_batch_is_refused() {
    let ctx = Context::new();
    assert!(matches!(ctx.new_arrays(Vec::new()), Err(Error::InvalidArgument(_))));
    assert!(matches!(ctx.new_buffers(Vec::new()), Err(Error::InvalidArgument(_))));
    assert!(matches!(ctx.new_textures(Vec::new()), Err(Error::InvalidArgument(_))));
    assert!(matches!(ctx.new_frame_buffers(Vec::new()), Err(Error::InvalidArgument(_))));
    assert!(matches!(ctx.new_render_buffers(Vec::new()), Err(Error::InvalidArgument(_))));
}

#[test]
fn batch_of_one_holds_one_handle() {
    let mut dev = MockDevice::new();
    let ctx = Context::new();
    let arrays = ctx.new_arrays(dev.generate(1)).unwrap();
    assert_eq!(arrays.count(), 1);
    assert_eq!(arrays.index(0).id(), 1);
}

#[test]
fn each_handle_is_deleted_exactly_once() {
    let mut dev = MockDevice::new();
    let mut ctx = Context::new();
    let a = ctx.new_array(dev.generate(1)[0]);
    let b = ctx.new_buffer(dev.generate(1)[0]);
    let s = ctx.new_shader(opengl::ShaderType::Vertex, dev.generate(1)[0]);
    let p = ctx.new_program(dev.generate(1)[0]);
    let t = ctx.new_texture(dev.generate(1)[0]);
    a.delete(&mut ctx);
    b.delete(&mut ctx);
    s.delete(&mut ctx);
    p.delete(&mut ctx);
    t.delete(&mut ctx);
    assert_eq!(deleted(&ctx, Kind::Array), vec![1]);
    assert_eq!(deleted(&ctx, Kind::Buffer), vec![2]);
    assert_eq!(deleted(&ctx, Kind::Shader), vec![3]);
    assert_eq!(deleted(&ctx, Kind::Program), vec![4]);
    assert_eq!(deleted(&ctx, Kind::Texture), vec![5]);
    assert_eq!(delete_calls(&ctx), dev.allocated.len());
}

#[test]
fn batch_is_deleted_in_one_call() {
    let mut dev = MockDevice::new();
    let mut ctx = Context::new();
    let buffers = ctx.new_buffers(dev.generate(4)).unwrap();
    assert_eq!(buffers.count(), 4);
    let ids: Vec<u32> = buffers.iter().iter().map(|b| b.id()).collect();
    assert_eq!(ids, vec![1, 2, 3, 4]);
    buffers.delete(&mut ctx);
    assert_eq!(delete_calls(&ctx), 1);
    assert_eq!(deleted(&ctx, Kind::Buffer), dev.allocated);
}

#[test]
fn handles_moved_out_are_not_deleted_with_the_rest() {
    let mut dev = MockDevice::new();
    let mut ctx = Context::new();
    let arrays = ctx.new_arrays(dev.generate(3)).unwrap();
    let mut iter = arrays.into_iter();
    let first: Array = iter.next().unwrap();
    assert_eq!(first.id(), 1);
    iter.delete(&mut ctx);
    assert_eq!(deleted(&ctx, Kind::Array), vec![2, 3]);
    assert_eq!(delete_calls(&ctx), 2);
    first.delete(&mut ctx);
    assert_eq!(deleted(&ctx, Kind::Array), vec![2, 3, 1]);
}

#[test]
fn fully_drained_iteration_deletes_nothing() {
    let mut dev = MockDevice::new();
    let mut ctx = Context::new();
    let mut iter = ctx.new_render_buffers(dev.generate(2)).unwrap().into_iter();
    let a = iter.next().unwrap();
    let b = iter.next().unwrap();
    assert!(iter.next().is_none());
    iter.delete(&mut ctx);
    assert!(ctx.commands().is_empty());
    a.delete(&mut ctx);
    b.delete(&mut ctx);
    assert_eq!(deleted(&ctx, Kind::RenderBuffer), vec![1, 2]);
}

#[test]
fn iteration_follows_allocation_order() {
    let mut dev = MockDevice::new();
    let ctx = Context::new();
    let mut iter = ctx.new_frame_buffers(dev.generate(3)).unwrap().into_iter();
    assert_eq!(iter.next().map(|f| f.id()), Some(1));
    assert_eq!(iter.next().map(|f| f.id()), Some(2));
    assert_eq!(iter.next().map(|f| f.id()), Some(3));
    assert!(iter.next().is_none());
}

#[test]
fn binding_names_the_object_and_unbinding_names_zero() {
    let mut ctx = Context::new();
    let a = ctx.new_array(7);
    let b = ctx.new_buffer(9);
    a.bind(&mut ctx);
    b.bind(&mut ctx, Target::ElementArray);
    Array::unbind(&mut ctx);
    opengl::Buffer::unbind(&mut ctx, Target::ElementArray);
    assert_eq!(
        ctx.take_commands(),
        vec![
            Command::BindVertexArray(7),
            Command::BindBuffer(gl::ELEMENT_ARRAY_BUFFER, 9),
            Command::BindVertexArray(0),
            Command::BindBuffer(gl::ELEMENT_ARRAY_BUFFER, 0),
        ]
    );
}

#[test]
fn buffer_data_carries_the_bytes_and_usage() {
    let mut ctx = Context::new();
    let b = ctx.new_buffer(3);
    b.data(&mut ctx, &[1, 2, 3, 4], opengl::Usage::DynamicDraw);
    b.sub_data(&mut ctx, 2, &[9]);
    assert_eq!(
        ctx.take_commands(),
        vec![
            Command::BufferData { buffer: 3, data: vec![1, 2, 3, 4], usage: gl::DYNAMIC_DRAW },
            Command::BufferSubData { buffer: 3, offset: 2, data: vec![9] },
        ]
    );
}

#[test]
fn vertex_object_binds_its_array_before_each_buffer() {
    let mut ctx = Context::new();
    let mut v = Vertex::new(&ctx, 5);
    let b = v.new_buffer(&mut ctx, 6);
    assert_eq!(b.id(), 6);
    b.bind(&mut ctx, Target::Array);
    let c = v.new_buffer(&mut ctx, 8);
    assert_eq!(c.id(), 8);
    v.using(&mut ctx);
    v.delete(&mut ctx);
    assert_eq!(
        ctx.take_commands(),
        vec![
            Command::BindVertexArray(5),
            Command::BindBuffer(gl::ARRAY_BUFFER, 6),
            Command::BindVertexArray(5),
            Command::BindVertexArray(5),
            Command::Delete(Kind::Buffer, vec![6, 8]),
            Command::Delete(Kind::Array, vec![5]),
        ]
    );
}
