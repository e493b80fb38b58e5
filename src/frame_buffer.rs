//! Framebuffer objects.
use crate::command::{deletes, Command, Kind};
use crate::context::{appended_one, Context};
use crate::error::Error;
use crate::enums::FrameBufferTarget;
use vstd::prelude::*;

verus! {

/// A framebuffer object.
pub struct FrameBuffer {
    fbo: u32,
}

impl View for FrameBuffer {
    /// The device's name for the object.
    type V = u32;

    closed spec fn view(&self) -> u32 {
        self.fbo
    }
}

impl FrameBuffer {
    pub(crate) fn new(fbo: u32) -> (r: Self)
        ensures
            r@ == fbo,
    {
        Self { fbo }
    }

    /// The device's name for the object.
    pub fn id(&self) -> (r: u32)
        ensures
            r == self@,
    {
        self.fbo
    }

    /// Gives the object up: one deletion call for its name.
    pub fn delete(self, context: &mut Context)
        ensures
            appended_one(old(context)@, final(context)@, |c: Command| deletes(c, Kind::FrameBuffer, seq![self@])),
    {
        let ids: Vec<u32> = vec![self.fbo];
        assert(ids@ =~= seq![self.fbo]);
        context.push(Command::Delete(Kind::FrameBuffer, ids));
    }
}

/// Framebuffer objects from one batched generate call.
pub struct FrameBuffers {
    fbos: Vec<FrameBuffer>,
}

impl View for FrameBuffers {
    /// The device's names for the objects, in allocation order.
    type V = Seq<u32>;

    closed spec fn view(&self) -> Seq<u32> {
        self.fbos@.map_values(|h: FrameBuffer| h@)
    }
}

impl FrameBuffers {
    /// Takes ownership of the objects that one batched generate call named;
    /// an empty batch is refused.
    pub(crate) fn new(ids: Vec<u32>) -> (r: Result<Self, Error>)
        ensures
            r is Ok <==> ids@.len() > 0,
            r is Ok ==> r->Ok_0@ == ids@,
            r is Err ==> r->Err_0.is_invalid_argument(),
    {
        if ids.len() == 0 {
            return Err(Error::InvalidArgument("a batch must hold at least one object".to_owned()));
        }
        let mut fbos: Vec<FrameBuffer> = Vec::with_capacity(ids.len());
        let mut i: usize = 0;
        while i < ids.len()
            invariant
                i <= ids@.len(),
                fbos@.len() == i,
                forall|j: int| 0 <= j < i ==> #[trigger] fbos@[j]@ == ids@[j],
            decreases ids@.len() - i,
        {
            fbos.push(FrameBuffer::new(ids[i]));
            i = i + 1;
        }
        let r = Self { fbos };
        assert(r@ =~= ids@);
        Ok(r)
    }

    /// The number of objects.
    pub fn count(&self) -> (r: usize)
        ensures
            r == self@.len(),
    {
        self.fbos.len()
    }

    /// The object at `index`, in allocation order.
    pub fn index(&self, index: usize) -> (r: &FrameBuffer)
        requires
            index < self@.len(),
        ensures
            r@ == self@[index as int],
    {
        &self.fbos[index]
    }

    /// The objects, in allocation order.
    pub fn iter(&self) -> (r: &[FrameBuffer])
        ensures
            r@.map_values(|h: FrameBuffer| h@) == self@,
    {
        self.fbos.as_slice()
    }

    /// Hands the objects out one by one, in allocation order.
    pub fn into_iter(self) -> (r: IntoIter)
        ensures
            r@ == self@,
    {
        IntoIter { fbos: self.fbos }
    }

    /// Gives all objects up in one batched deletion call.
    pub fn delete(self, context: &mut Context)
        ensures
            appended_one(old(context)@, final(context)@, |c: Command| deletes(c, Kind::FrameBuffer, self@)),
    {
        let mut ids: Vec<u32> = Vec::with_capacity(self.fbos.len());
        let mut i: usize = 0;
        while i < self.fbos.len()
            invariant
                i <= self@.len(),
                ids@ == self@.take(i as int),
            decreases self@.len() - i,
        {
            ids.push(self.fbos[i].id());
            i = i + 1;
            assert(ids@ =~= self@.take(i as int));
        }
        assert(ids@ =~= self@);
        context.push(Command::Delete(Kind::FrameBuffer, ids));
    }
}

/// The objects of a batch that have not been handed out yet.
pub struct IntoIter {
    fbos: Vec<FrameBuffer>,
}

impl View for IntoIter {
    /// The device's names for the objects still held, in allocation order.
    type V = Seq<u32>;

    closed spec fn view(&self) -> Seq<u32> {
        self.fbos@.map_values(|h: FrameBuffer| h@)
    }
}

impl IntoIter {
    /// Hands out the next object; it leaves the batch and is the caller's
    /// to delete.
    pub fn next(&mut self) -> (r: Option<FrameBuffer>)
        ensures
            old(self)@.len() == 0 ==> r is None && final(self)@ == old(self)@,
            old(self)@.len() > 0 ==> r is Some && r->Some_0@ == old(self)@[0]
                && final(self)@ == old(self)@.drop_first(),
    {
        if self.fbos.len() == 0 {
            None
        } else {
            let h = self.fbos.remove(0);
            assert(self@ =~= old(self)@.drop_first());
            Some(h)
        }
    }

    /// Gives up the objects still held, one deletion call each, in
    /// allocation order. Objects handed out before are not touched.
    pub fn delete(self, context: &mut Context)
        ensures
            final(context)@.len() == old(context)@.len() + self@.len(),
            final(context)@.take(old(context)@.len() as int) == old(context)@,
            forall|i: int|
                0 <= i < self@.len() ==> deletes(
                    #[trigger] final(context)@[old(context)@.len() + i],
                    Kind::FrameBuffer,
                    seq![self@[i]],
                ),
    {
        let mut i: usize = 0;
        while i < self.fbos.len()
            invariant
                i <= self@.len(),
                context@.len() == old(context)@.len() + i,
                context@.take(old(context)@.len() as int) == old(context)@,
                forall|j: int|
                    0 <= j < i ==> deletes(
                        #[trigger] context@[old(context)@.len() + j],
                        Kind::FrameBuffer,
                        seq![self@[j]],
                    ),
            decreases self@.len() - i,
        {
            let ids: Vec<u32> = vec![self.fbos[i].id()];
            assert(ids@ =~= seq![self@[i as int]]);
            context.push(Command::Delete(Kind::FrameBuffer, ids));
            assert(context@.take(old(context)@.len() as int) =~= old(context)@);
            i = i + 1;
        }
    }
}

impl FrameBuffer {
    /// Makes this framebuffer the current one for `target`.
    pub fn bind(&self, context: &mut Context, target: FrameBufferTarget)
        ensures
            final(context)@ == old(context)@.push(Command::BindFramebuffer(target.gl_target(), self@)),
    {
        context.push(Command::BindFramebuffer(target.to_gl_target(), self.fbo));
    }

    /// Leaves no framebuffer current for `target`.
    pub fn unbind(context: &mut Context, target: FrameBufferTarget)
        ensures
            final(context)@ == old(context)@.push(Command::BindFramebuffer(target.gl_target(), 0)),
    {
        context.push(Command::BindFramebuffer(target.to_gl_target(), 0));
    }
}

} // verus!
