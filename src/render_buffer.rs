//! Renderbuffer objects.
use crate::command::{deletes, Command, Kind};
use crate::context::{appended_one, Context};
use crate::error::Error;
use crate::enums::RenderBufferFormat;
use crate::native;
use vstd::prelude::*;

verus! {

/// A renderbuffer object.
pub struct RenderBuffer {
    rbo: u32,
}

impl View for RenderBuffer {
    /// The device's name for the object.
    type V = u32;

    closed spec fn view(&self) -> u32 {
        self.rbo
    }
}

impl RenderBuffer {
    pub(crate) fn new(rbo: u32) -> (r: Self)
        ensures
            r@ == rbo,
    {
        Self { rbo }
    }

    /// The device's name for the object.
    pub fn id(&self) -> (r: u32)
        ensures
            r == self@,
    {
        self.rbo
    }

    /// Gives the object up: one deletion call for its name.
    pub fn delete(self, context: &mut Context)
        ensures
            appended_one(old(context)@, final(context)@, |c: Command| deletes(c, Kind::RenderBuffer, seq![self@])),
    {
        let ids: Vec<u32> = vec![self.rbo];
        assert(ids@ =~= seq![self.rbo]);
        context.push(Command::Delete(Kind::RenderBuffer, ids));
    }
}

/// Renderbuffer objects from one batched generate call.
pub struct RenderBuffers {
    rbos: Vec<RenderBuffer>,
}

impl View for RenderBuffers {
    /// The device's names for the objects, in allocation order.
    type V = Seq<u32>;

    closed spec fn view(&self) -> Seq<u32> {
        self.rbos@.map_values(|h: RenderBuffer| h@)
    }
}

impl RenderBuffers {
    /// Takes ownership of the objects that one batched generate call named;
    /// an empty batch is refused.
    pub(crate) fn new(ids: Vec<u32>) -> (r: Result<Self, Error>)
        ensures
            r is Ok <==> ids@.len() > 0,
            r is Ok ==> r->Ok_0@ == ids@,
            r is Err ==> r->Err_0.is_invalid_argument(),
    {
        if ids.len() == 0 {
            return Err(Error::InvalidArgument("a batch must hold at least one object".to_owned()));
        }
        let mut rbos: Vec<RenderBuffer> = Vec::with_capacity(ids.len());
        let mut i: usize = 0;
        while i < ids.len()
            invariant
                i <= ids@.len(),
                rbos@.len() == i,
                forall|j: int| 0 <= j < i ==> #[trigger] rbos@[j]@ == ids@[j],
            decreases ids@.len() - i,
        {
            rbos.push(RenderBuffer::new(ids[i]));
            i = i + 1;
        }
        let r = Self { rbos };
        assert(r@ =~= ids@);
        Ok(r)
    }

    /// The number of objects.
    pub fn count(&self) -> (r: usize)
        ensures
            r == self@.len(),
    {
        self.rbos.len()
    }

    /// The object at `index`, in allocation order.
    pub fn index(&self, index: usize) -> (r: &RenderBuffer)
        requires
            index < self@.len(),
        ensures
            r@ == self@[index as int],
    {
        &self.rbos[index]
    }

    /// The objects, in allocation order.
    pub fn iter(&self) -> (r: &[RenderBuffer])
        ensures
            r@.map_values(|h: RenderBuffer| h@) == self@,
    {
        self.rbos.as_slice()
    }

    /// Hands the objects out one by one, in allocation order.
    pub fn into_iter(self) -> (r: IntoIter)
        ensures
            r@ == self@,
    {
        IntoIter { rbos: self.rbos }
    }

    /// Gives all objects up in one batched deletion call.
    pub fn delete(self, context: &mut Context)
        ensures
            appended_one(old(context)@, final(context)@, |c: Command| deletes(c, Kind::RenderBuffer, self@)),
    {
        let mut ids: Vec<u32> = Vec::with_capacity(self.rbos.len());
        let mut i: usize = 0;
        while i < self.rbos.len()
            invariant
                i <= self@.len(),
                ids@ == self@.take(i as int),
            decreases self@.len() - i,
        {
            ids.push(self.rbos[i].id());
            i = i + 1;
            assert(ids@ =~= self@.take(i as int));
        }
        assert(ids@ =~= self@);
        context.push(Command::Delete(Kind::RenderBuffer, ids));
    }
}

/// The objects of a batch that have not been handed out yet.
pub struct IntoIter {
    rbos: Vec<RenderBuffer>,
}

impl View for IntoIter {
    /// The device's names for the objects still held, in allocation order.
    type V = Seq<u32>;

    closed spec fn view(&self) -> Seq<u32> {
        self.rbos@.map_values(|h: RenderBuffer| h@)
    }
}

impl IntoIter {
    /// Hands out the next object; it leaves the batch and is the caller's
    /// to delete.
    pub fn next(&mut self) -> (r: Option<RenderBuffer>)
        ensures
            old(self)@.len() == 0 ==> r is None && final(self)@ == old(self)@,
            old(self)@.len() > 0 ==> r is Some && r->Some_0@ == old(self)@[0]
                && final(self)@ == old(self)@.drop_first(),
    {
        if self.rbos.len() == 0 {
            None
        } else {
            let h = self.rbos.remove(0);
            assert(self@ =~= old(self)@.drop_first());
            Some(h)
        }
    }

    /// Gives up the objects still held, one deletion call each, in
    /// allocation order. Objects handed out before are not touched.
    pub fn delete(self, context: &mut Context)
        ensures
            final(context)@.len() == old(context)@.len() + self@.len(),
            final(context)@.take(old(context)@.len() as int) == old(context)@,
            forall|i: int|
                0 <= i < self@.len() ==> deletes(
                    #[trigger] final(context)@[old(context)@.len() + i],
                    Kind::RenderBuffer,
                    seq![self@[i]],
                ),
    {
        let mut i: usize = 0;
        while i < self.rbos.len()
            invariant
                i <= self@.len(),
                context@.len() == old(context)@.len() + i,
                context@.take(old(context)@.len() as int) == old(context)@,
                forall|j: int|
                    0 <= j < i ==> deletes(
                        #[trigger] context@[old(context)@.len() + j],
                        Kind::RenderBuffer,
                        seq![self@[j]],
                    ),
            decreases self@.len() - i,
        {
            let ids: Vec<u32> = vec![self.rbos[i].id()];
            assert(ids@ =~= seq![self@[i as int]]);
            context.push(Command::Delete(Kind::RenderBuffer, ids));
            assert(context@.take(old(context)@.len() as int) =~= old(context)@);
            i = i + 1;
        }
    }
}

impl RenderBuffer {
    /// Makes this renderbuffer the current one.
    pub fn bind(&self, context: &mut Context)
        ensures
            final(context)@ == old(context)@.push(Command::BindRenderbuffer(native::RENDERBUFFER, self@)),
    {
        context.push(Command::BindRenderbuffer(native::RENDERBUFFER, self.rbo));
    }

    /// Leaves no renderbuffer current.
    pub fn unbind(context: &mut Context)
        ensures
            final(context)@ == old(context)@.push(Command::BindRenderbuffer(native::RENDERBUFFER, 0)),
    {
        context.push(Command::BindRenderbuffer(native::RENDERBUFFER, 0));
    }

    /// Allocates storage of `format` and the given size for the current
    /// renderbuffer.
    pub fn storage(context: &mut Context, format: RenderBufferFormat, size: (u32, u32))
        ensures
            final(context)@ == old(context)@.push(
                Command::RenderbufferStorage { format: format.gl_format(), width: size.0, height: size.1 },
            ),
    {
        let (width, height) = size;
        context.push(Command::RenderbufferStorage { format: format.to_gl_format(), width, height });
    }
}

} // verus!
