//! The context: the one place where object names are turned into owned
//! handles, and the queue of native calls that the library has asked for.
use crate::array::{Array, Arrays};
use crate::buffer::{Buffer, Buffers};
use crate::command::Command;
use crate::enums::{BlendEquation, BlendFactor, Cap, CullFace, DepthFunc, FrontFace, GlType, Mode, ShaderType, StencilFunc, StencilOp};
use crate::error::Error;
use crate::frame_buffer::{FrameBuffer, FrameBuffers};
use crate::program::Program;
use crate::render_buffer::{RenderBuffer, RenderBuffers};
use crate::shader::Shader;
use crate::texture::{Texture, Textures};
use vstd::prelude::*;

verus! {

/// A device context, as the library sees it: the native calls it has asked
/// for and that the application has not yet taken, oldest first.
pub struct Context {
    commands: Vec<Command>,
}

impl View for Context {
    type V = Seq<Command>;

    closed spec fn view(&self) -> Seq<Command> {
        self.commands@
    }
}

/// `after` is `before` with one command appended that satisfies `p`.
pub open spec fn appended_one(
    before: Seq<Command>,
    after: Seq<Command>,
    p: spec_fn(Command) -> bool,
) -> bool {
    &&& after.len() == before.len() + 1
    &&& after.drop_last() == before
    &&& p(after.last())
}

impl Context {
    /// A context with no pending calls.
    pub fn new() -> (r: Self)
        ensures
            r@ == Seq::<Command>::empty(),
    {
        Context { commands: Vec::new() }
    }

    /// The pending calls, oldest first.
    pub fn commands(&self) -> (r: &Vec<Command>)
        ensures
            r@ == self@,
    {
        &self.commands
    }

    /// Hands the pending calls over, oldest first, and forgets them.
    pub fn take_commands(&mut self) -> (r: Vec<Command>)
        ensures
            r@ == old(self)@,
            final(self)@ == Seq::<Command>::empty(),
    {
        let mut taken: Vec<Command> = Vec::new();
        std::mem::swap(&mut taken, &mut self.commands);
        taken
    }

    /// Appends one call to the queue.
    pub(crate) fn push(&mut self, command: Command)
        ensures
            final(self)@ == old(self)@.push(command),
            final(self)@.drop_last() == old(self)@,
            final(self)@.last() == command,
    {
        self.commands.push(command);
        assert(self@.drop_last() =~= old(self)@);
    }

    /// Whether the device accepts this scalar kind for index data.
    pub open spec fn is_index_type(ty: GlType) -> bool {
        ty == GlType::u8 || ty == GlType::u16 || ty == GlType::u32
    }

    /// Whether the device accepts this scalar kind for index data.
    pub fn check_type_is_indeice(ty: GlType) -> (r: bool)
        ensures
            r == Self::is_index_type(ty),
    {
        match ty {
            GlType::u8 => true,
            GlType::u16 => true,
            GlType::u32 => true,
            _ => false,
        }
    }

    /// Takes ownership of the vertex array object that the device named `id`.
    pub fn new_array(&self, id: u32) -> (r: Array)
        ensures
            r@ == id,
    {
        Array::new(id)
    }

    /// Takes ownership of the vertex array objects that one batched
    /// generate call named; an empty batch is refused.
    pub fn new_arrays(&self, ids: Vec<u32>) -> (r: Result<Arrays, Error>)
        ensures
            r is Ok <==> ids@.len() > 0,
            r is Ok ==> r->Ok_0@ == ids@,
            r is Err ==> r->Err_0.is_invalid_argument(),
    {
        Arrays::new(ids)
    }

    /// Takes ownership of the buffer object that the device named `id`.
    pub fn new_buffer(&self, id: u32) -> (r: Buffer)
        ensures
            r@ == id,
    {
        Buffer::new(id)
    }

    /// Takes ownership of the buffer objects that one batched generate call
    /// named; an empty batch is refused.
    pub fn new_buffers(&self, ids: Vec<u32>) -> (r: Result<Buffers, Error>)
        ensures
            r is Ok <==> ids@.len() > 0,
            r is Ok ==> r->Ok_0@ == ids@,
            r is Err ==> r->Err_0.is_invalid_argument(),
    {
        Buffers::new(ids)
    }

    /// Takes ownership of the shader object of type `ty` that the device
    /// created under the name `id`.
    pub fn new_shader(&self, ty: ShaderType, id: u32) -> (r: Shader)
        ensures
            r.id_spec() == id,
            r.shader_type() == ty,
            r.state() == crate::shader::ShaderState::Created,
    {
        Shader::new(ty, id)
    }

    /// Takes ownership of the program object that the device created under
    /// the name `id`.
    pub fn new_program(&self, id: u32) -> (r: Program)
        ensures
            r.id_spec() == id,
            r.state() == crate::program::ProgramState::Created,
    {
        Program::new(id)
    }

    /// Takes ownership of the texture object that the device named `id`.
    pub fn new_texture(&self, id: u32) -> (r: Texture)
        ensures
            r@ == id,
    {
        Texture::new(id)
    }

    /// Takes ownership of the texture objects that one batched generate
    /// call named; an empty batch is refused.
    pub fn new_textures(&self, ids: Vec<u32>) -> (r: Result<Textures, Error>)
        ensures
            r is Ok <==> ids@.len() > 0,
            r is Ok ==> r->Ok_0@ == ids@,
            r is Err ==> r->Err_0.is_invalid_argument(),
    {
        Textures::new(ids)
    }

    /// Takes ownership of the framebuffer object that the device named `id`.
    pub fn new_frame_buffer(&self, id: u32) -> (r: FrameBuffer)
        ensures
            r@ == id,
    {
        FrameBuffer::new(id)
    }

    /// Takes ownership of the framebuffer objects that one batched generate
    /// call named; an empty batch is refused.
    pub fn new_frame_buffers(&self, ids: Vec<u32>) -> (r: Result<FrameBuffers, Error>)
        ensures
            r is Ok <==> ids@.len() > 0,
            r is Ok ==> r->Ok_0@ == ids@,
            r is Err ==> r->Err_0.is_invalid_argument(),
    {
        FrameBuffers::new(ids)
    }

    /// Takes ownership of the renderbuffer object that the device named `id`.
    pub fn new_render_buffer(&self, id: u32) -> (r: RenderBuffer)
        ensures
            r@ == id,
    {
        RenderBuffer::new(id)
    }

    /// Takes ownership of the renderbuffer objects that one batched
    /// generate call named; an empty batch is refused.
    pub fn new_render_buffers(&self, ids: Vec<u32>) -> (r: Result<RenderBuffers, Error>)
        ensures
            r is Ok <==> ids@.len() > 0,
            r is Ok ==> r->Ok_0@ == ids@,
            r is Err ==> r->Err_0.is_invalid_argument(),
    {
        RenderBuffers::new(ids)
    }

    /// Sets the viewport.
    pub fn view_port(&mut self, x: i32, y: i32, width: i32, height: i32)
        ensures
            final(self)@ == old(self)@.push(Command::Viewport(x, y, width, height)),
    {
        self.push(Command::Viewport(x, y, width, height));
    }

    /// Sets the clear colour; each component is the bit pattern of a
    /// single-precision float.
    pub fn clear_color(&mut self, red: u32, green: u32, blue: u32, alpha: u32)
        ensures
            final(self)@ == old(self)@.push(Command::ClearColor(red, green, blue, alpha)),
    {
        self.push(Command::ClearColor(red, green, blue, alpha));
    }

    /// Clears the buffers that `mask` selects.
    pub fn clear(&mut self, mask: u32)
        ensures
            final(self)@ == old(self)@.push(Command::Clear(mask)),
    {
        self.push(Command::Clear(mask));
    }

    /// Switches a capability on.
    pub fn enable(&mut self, cap: Cap)
        ensures
            final(self)@ == old(self)@.push(Command::Enable(cap.gl_cap())),
    {
        self.push(Command::Enable(cap.to_gl_cap()));
    }

    /// Switches a capability off.
    pub fn disable(&mut self, cap: Cap)
        ensures
            final(self)@ == old(self)@.push(Command::Disable(cap.gl_cap())),
    {
        self.push(Command::Disable(cap.to_gl_cap()));
    }

    /// Sets whether the depth buffer is written.
    pub fn depth_mask(&mut self, mask: bool)
        ensures
            final(self)@ == old(self)@.push(Command::DepthMask(mask)),
    {
        self.push(Command::DepthMask(mask));
    }

    /// Sets the comparison of the depth test.
    pub fn depth_func(&mut self, func: DepthFunc)
        ensures
            final(self)@ == old(self)@.push(Command::DepthFunc(func.gl_func())),
    {
        self.push(Command::DepthFunc(func.to_gl_func()));
    }

    /// Sets which stencil bits are written.
    pub fn stencil_mask(&mut self, mask: u32)
        ensures
            final(self)@ == old(self)@.push(Command::StencilMask(mask)),
    {
        self.push(Command::StencilMask(mask));
    }

    /// Sets the comparison, reference value and mask of the stencil test.
    pub fn stencil_func(&mut self, func: StencilFunc, ref_: i32, mask: u32)
        ensures
            final(self)@ == old(self)@.push(Command::StencilFunc(func.gl_func(), ref_, mask)),
    {
        self.push(Command::StencilFunc(func.to_gl_func(), ref_, mask));
    }

    /// Sets the actions of the stencil test.
    pub fn stencil_op(&mut self, fail: StencilOp, zfail: StencilOp, zpass: StencilOp)
        ensures
            final(self)@ == old(self)@.push(
                Command::StencilOp(fail.gl_op(), zfail.gl_op(), zpass.gl_op()),
            ),
    {
        self.push(Command::StencilOp(fail.to_gl_op(), zfail.to_gl_op(), zpass.to_gl_op()));
    }

    /// Sets the blend factors.
    pub fn blend_func(&mut self, src: BlendFactor, dst: BlendFactor)
        ensures
            final(self)@ == old(self)@.push(Command::BlendFunc(src.gl_func(), dst.gl_func())),
    {
        self.push(Command::BlendFunc(src.to_gl_func(), dst.to_gl_func()));
    }

    /// Sets the blend factors of colour and alpha apart.
    pub fn blend_func_separate(
        &mut self,
        src: BlendFactor,
        dst: BlendFactor,
        src_alpha: BlendFactor,
        dst_alpha: BlendFactor,
    )
        ensures
            final(self)@ == old(self)@.push(
                Command::BlendFuncSeparate(
                    src.gl_func(),
                    dst.gl_func(),
                    src_alpha.gl_func(),
                    dst_alpha.gl_func(),
                ),
            ),
    {
        self.push(
            Command::BlendFuncSeparate(
                src.to_gl_func(),
                dst.to_gl_func(),
                src_alpha.to_gl_func(),
                dst_alpha.to_gl_func(),
            ),
        );
    }

    /// Sets the blend equation.
    pub fn blend_equation(&mut self, mode: BlendEquation)
        ensures
            final(self)@ == old(self)@.push(Command::BlendEquation(mode.gl_equation())),
    {
        self.push(Command::BlendEquation(mode.to_gl_equation()));
    }

    /// Sets which faces are culled.
    pub fn cull_face(&mut self, face: CullFace)
        ensures
            final(self)@ == old(self)@.push(Command::CullFace(face.gl_face())),
    {
        self.push(Command::CullFace(face.to_gl_face()));
    }

    /// Sets the winding order of front faces.
    pub fn front_face(&mut self, face: FrontFace)
        ensures
            final(self)@ == old(self)@.push(Command::FrontFace(face.gl_face())),
    {
        self.push(Command::FrontFace(face.to_gl_face()));
    }

    /// Draws `count` vertices from `first` on of the bound array.
    pub fn draw_arrays(&mut self, mode: Mode, first: i32, count: i32)
        ensures
            final(self)@ == old(self)@.push(Command::DrawArrays(mode.gl_mode(), first, count)),
    {
        self.push(Command::DrawArrays(mode.to_gl_mode(), first, count));
    }

    /// Draws `count` indexed vertices, the indices of kind `ty` starting at
    /// byte `offset` of the bound element buffer. Fails, and asks for
    /// nothing, unless `ty` is an unsigned kind that the device accepts for
    /// indices.
    pub fn draw_elements(&mut self, mode: Mode, count: usize, ty: GlType, offset: usize) -> (r:
        Result<(), Error>)
        ensures
            r is Ok <==> Self::is_index_type(ty),
            r is Ok ==> final(self)@ == old(self)@.push(
                Command::DrawElements { mode: mode.gl_mode(), count, ty: ty.gl_type(), offset },
            ),
            r is Err ==> r->Err_0.is_invalid_argument() && final(self)@ == old(self)@,
    {
        if !Self::check_type_is_indeice(ty) {
            return Err(Error::InvalidArgument("the type is not an index type".to_owned()));
        }
        self.draw_elements_unchecked(mode, count, ty, offset);
        Ok(())
    }

    /// `draw_elements` without the check of the index type, for a caller
    /// that has established it.
    pub fn draw_elements_unchecked(&mut self, mode: Mode, count: usize, ty: GlType, offset: usize)
        requires
            Self::is_index_type(ty),
        ensures
            final(self)@ == old(self)@.push(
                Command::DrawElements { mode: mode.gl_mode(), count, ty: ty.gl_type(), offset },
            ),
    {
        self.push(
            Command::DrawElements {
                mode: mode.to_gl_mode(),
                count,
                ty: ty.to_gl_type(),
                offset,
            },
        );
    }
}

} // verus!
