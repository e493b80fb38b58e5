//! Texture objects.
use crate::command::{deletes, Command, Kind};
use crate::context::{appended_one, Context};
use crate::error::Error;
use crate::enums::{FrameBufferAttachment, FrameBufferTarget, ImageFormat, ImageTarget, InternalFormat, PixelDataType, TexTarget, TextureTarget};
use crate::native;
use crate::tex_param::TexParam;
use vstd::prelude::*;

verus! {

/// A texture object.
pub struct Texture {
    id: u32,
}

impl View for Texture {
    /// The device's name for the object.
    type V = u32;

    closed spec fn view(&self) -> u32 {
        self.id
    }
}

impl Texture {
    pub(crate) fn new(id: u32) -> (r: Self)
        ensures
            r@ == id,
    {
        Self { id }
    }

    /// The device's name for the object.
    pub fn id(&self) -> (r: u32)
        ensures
            r == self@,
    {
        self.id
    }

    /// Gives the object up: one deletion call for its name.
    pub fn delete(self, context: &mut Context)
        ensures
            appended_one(old(context)@, final(context)@, |c: Command| deletes(c, Kind::Texture, seq![self@])),
    {
        let ids: Vec<u32> = vec![self.id];
        assert(ids@ =~= seq![self.id]);
        context.push(Command::Delete(Kind::Texture, ids));
    }
}

/// Texture objects from one batched generate call.
pub struct Textures {
    textures: Vec<Texture>,
}

impl View for Textures {
    /// The device's names for the objects, in allocation order.
    type V = Seq<u32>;

    closed spec fn view(&self) -> Seq<u32> {
        self.textures@.map_values(|h: Texture| h@)
    }
}

impl Textures {
    /// Takes ownership of the objects that one batched generate call named;
    /// an empty batch is refused.
    pub(crate) fn new(ids: Vec<u32>) -> (r: Result<Self, Error>)
        ensures
            r is Ok <==> ids@.len() > 0,
            r is Ok ==> r->Ok_0@ == ids@,
            r is Err ==> r->Err_0.is_invalid_argument(),
    {
        if ids.len() == 0 {
            return Err(Error::InvalidArgument("a batch must hold at least one object".to_owned()));
        }
        let mut textures: Vec<Texture> = Vec::with_capacity(ids.len());
        let mut i: usize = 0;
        while i < ids.len()
            invariant
                i <= ids@.len(),
                textures@.len() == i,
                forall|j: int| 0 <= j < i ==> #[trigger] textures@[j]@ == ids@[j],
            decreases ids@.len() - i,
        {
            textures.push(Texture::new(ids[i]));
            i = i + 1;
        }
        let r = Self { textures };
        assert(r@ =~= ids@);
        Ok(r)
    }

    /// The number of objects.
    pub fn count(&self) -> (r: usize)
        ensures
            r == self@.len(),
    {
        self.textures.len()
    }

    /// The object at `index`, in allocation order.
    pub fn index(&self, index: usize) -> (r: &Texture)
        requires
            index < self@.len(),
        ensures
            r@ == self@[index as int],
    {
        &self.textures[index]
    }

    /// The objects, in allocation order.
    pub fn iter(&self) -> (r: &[Texture])
        ensures
            r@.map_values(|h: Texture| h@) == self@,
    {
        self.textures.as_slice()
    }

    /// Hands the objects out one by one, in allocation order.
    pub fn into_iter(self) -> (r: IntoIter)
        ensures
            r@ == self@,
    {
        IntoIter { textures: self.textures }
    }

    /// Gives all objects up in one batched deletion call.
    pub fn delete(self, context: &mut Context)
        ensures
            appended_one(old(context)@, final(context)@, |c: Command| deletes(c, Kind::Texture, self@)),
    {
        let mut ids: Vec<u32> = Vec::with_capacity(self.textures.len());
        let mut i: usize = 0;
        while i < self.textures.len()
            invariant
                i <= self@.len(),
                ids@ == self@.take(i as int),
            decreases self@.len() - i,
        {
            ids.push(self.textures[i].id());
            i = i + 1;
            assert(ids@ =~= self@.take(i as int));
        }
        assert(ids@ =~= self@);
        context.push(Command::Delete(Kind::Texture, ids));
    }
}

/// The objects of a batch that have not been handed out yet.
pub struct IntoIter {
    textures: Vec<Texture>,
}

impl View for IntoIter {
    /// The device's names for the objects still held, in allocation order.
    type V = Seq<u32>;

    closed spec fn view(&self) -> Seq<u32> {
        self.textures@.map_values(|h: Texture| h@)
    }
}

impl IntoIter {
    /// Hands out the next object; it leaves the batch and is the caller's
    /// to delete.
    pub fn next(&mut self) -> (r: Option<Texture>)
        ensures
            old(self)@.len() == 0 ==> r is None && final(self)@ == old(self)@,
            old(self)@.len() > 0 ==> r is Some && r->Some_0@ == old(self)@[0]
                && final(self)@ == old(self)@.drop_first(),
    {
        if self.textures.len() == 0 {
            None
        } else {
            let h = self.textures.remove(0);
            assert(self@ =~= old(self)@.drop_first());
            Some(h)
        }
    }

    /// Gives up the objects still held, one deletion call each, in
    /// allocation order. Objects handed out before are not touched.
    pub fn delete(self, context: &mut Context)
        ensures
            final(context)@.len() == old(context)@.len() + self@.len(),
            final(context)@.take(old(context)@.len() as int) == old(context)@,
            forall|i: int|
                0 <= i < self@.len() ==> deletes(
                    #[trigger] final(context)@[old(context)@.len() + i],
                    Kind::Texture,
                    seq![self@[i]],
                ),
    {
        let mut i: usize = 0;
        while i < self.textures.len()
            invariant
                i <= self@.len(),
                context@.len() == old(context)@.len() + i,
                context@.take(old(context)@.len() as int) == old(context)@,
                forall|j: int|
                    0 <= j < i ==> deletes(
                        #[trigger] context@[old(context)@.len() + j],
                        Kind::Texture,
                        seq![self@[j]],
                    ),
            decreases self@.len() - i,
        {
            let ids: Vec<u32> = vec![self.textures[i].id()];
            assert(ids@ =~= seq![self@[i as int]]);
            context.push(Command::Delete(Kind::Texture, ids));
            assert(context@.take(old(context)@.len() as int) =~= old(context)@);
            i = i + 1;
        }
    }
}

impl Texture {
    /// Makes this texture the current one for `target` on the active unit.
    pub fn bind(&self, context: &mut Context, target: TexTarget)
        ensures
            final(context)@ == old(context)@.push(Command::BindTexture(target.gl_target(), self@)),
    {
        context.push(Command::BindTexture(target.to_gl_target(), self.id));
    }

    /// Leaves no texture current for `target` on the active unit.
    pub fn unbind(context: &mut Context, target: TexTarget)
        ensures
            final(context)@ == old(context)@.push(Command::BindTexture(target.gl_target(), 0)),
    {
        context.push(Command::BindTexture(target.to_gl_target(), 0));
    }

    /// Makes texture unit `index` the active one.
    pub fn active(context: &mut Context, index: u32)
        requires
            index <= u32::MAX - native::TEXTURE0,
        ensures
            final(context)@ == old(context)@.push(Command::ActiveTexture((native::TEXTURE0 + index) as u32)),
    {
        context.push(Command::ActiveTexture(native::TEXTURE0 + index));
    }

    /// Sets one parameter of this texture.
    pub fn set(&self, context: &mut Context, param: TexParam)
        ensures
            final(context)@ == old(context)@.push(Command::TexParameter(self@, param.pair())),
    {
        context.push(Command::TexParameter(self.id, param.to_pair()));
    }

    /// Generates the mipmaps of this texture.
    pub fn gen_minmap(&self, context: &mut Context)
        ensures
            final(context)@ == old(context)@.push(Command::GenerateMipmap(self@)),
    {
        context.push(Command::GenerateMipmap(self.id));
    }

    /// Uploads level 0 of a two-dimensional image to `target` of the current
    /// texture. Whether the device accepted it shows in its error flag,
    /// which `check_error` reads.
    pub fn load(
        context: &mut Context,
        target: ImageTarget,
        internal_format: InternalFormat,
        size: (u32, u32),
        format: ImageFormat,
        type_: PixelDataType,
        data: &[u8],
    )
        ensures
            appended_one(
                old(context)@,
                final(context)@,
                |c: Command|
                    match c {
                        Command::TexImage2D { target: t, internal_format: i, width, height, format: f, ty, data: d } => {
                            &&& t == target.gl_target()
                            &&& i == internal_format.gl_format()
                            &&& width == size.0
                            &&& height == size.1
                            &&& f == format.gl_format()
                            &&& ty == type_.gl_type()
                            &&& d@ == data@
                        },
                        _ => false,
                    },
            ),
    {
        let (width, height) = size;
        let bytes = vstd::slice::slice_to_vec(data);
        context.push(
            Command::TexImage2D {
                target: target.to_gl_target(),
                internal_format: internal_format.to_gl_format(),
                width,
                height,
                format: format.to_gl_format(),
                ty: type_.to_gl_type(),
                data: bytes,
            },
        );
    }

    /// Attaches level 0 of this texture to a framebuffer.
    pub fn attach(
        &self,
        context: &mut Context,
        target: FrameBufferTarget,
        attach: FrameBufferAttachment,
        tex_target: TextureTarget,
    )
        ensures
            final(context)@ == old(context)@.push(
                Command::FramebufferTexture2D {
                    target: target.gl_target(),
                    attachment: attach.gl_attachment(),
                    tex_target: tex_target.gl_enum(),
                    texture: self@,
                },
            ),
    {
        context.push(
            Command::FramebufferTexture2D {
                target: target.to_gl_target(),
                attachment: attach.to_gl_attachment(),
                tex_target: tex_target.to_gl_enum(),
                texture: self.id,
            },
        );
    }
}

} // verus!
