//! Buffer objects and the vertex attribute layout engine.
use crate::command::{deletes, Command, Kind};
use crate::context::{appended_one, Context};
use crate::error::Error;
use crate::enums::{GlType, Target, Usage};
use crate::layout::{
    entry_bytes, lemma_layout_step, lemma_offsets_are_prefix_sums, lemma_prefix_bounded,
    lemma_stride_covers_entries, lemma_stride_step, layout_commands, layout_entries, layout_valid,
    not_normalized, offset_of, stride_of, Entry, MAX_STRIDE,
};
use vstd::prelude::*;

verus! {

/// A buffer object.
pub struct Buffer {
    buffer: u32,
}

impl View for Buffer {
    /// The device's name for the object.
    type V = u32;

    closed spec fn view(&self) -> u32 {
        self.buffer
    }
}

impl Buffer {
    pub(crate) fn new(buffer: u32) -> (r: Self)
        ensures
            r@ == buffer,
    {
        Self { buffer }
    }

    /// The device's name for the object.
    pub fn id(&self) -> (r: u32)
        ensures
            r == self@,
    {
        self.buffer
    }

    /// Gives the object up: one deletion call for its name.
    pub fn delete(self, context: &mut Context)
        ensures
            appended_one(old(context)@, final(context)@, |c: Command| deletes(c, Kind::Buffer, seq![self@])),
    {
        let ids: Vec<u32> = vec![self.buffer];
        assert(ids@ =~= seq![self.buffer]);
        context.push(Command::Delete(Kind::Buffer, ids));
    }
}

/// Buffer objects from one batched generate call.
pub struct Buffers {
    buffers: Vec<Buffer>,
}

impl View for Buffers {
    /// The device's names for the objects, in allocation order.
    type V = Seq<u32>;

    closed spec fn view(&self) -> Seq<u32> {
        self.buffers@.map_values(|h: Buffer| h@)
    }
}

impl Buffers {
    /// Takes ownership of the objects that one batched generate call named;
    /// an empty batch is refused.
    pub(crate) fn new(ids: Vec<u32>) -> (r: Result<Self, Error>)
        ensures
            r is Ok <==> ids@.len() > 0,
            r is Ok ==> r->Ok_0@ == ids@,
            r is Err ==> r->Err_0.is_invalid_argument(),
    {
        if ids.len() == 0 {
            return Err(Error::InvalidArgument("a batch must hold at least one object".to_owned()));
        }
        let mut buffers: Vec<Buffer> = Vec::with_capacity(ids.len());
        let mut i: usize = 0;
        while i < ids.len()
            invariant
                i <= ids@.len(),
                buffers@.len() == i,
                forall|j: int| 0 <= j < i ==> #[trigger] buffers@[j]@ == ids@[j],
            decreases ids@.len() - i,
        {
            buffers.push(Buffer::new(ids[i]));
            i = i + 1;
        }
        let r = Self { buffers };
        assert(r@ =~= ids@);
        Ok(r)
    }

    /// The number of objects.
    pub fn count(&self) -> (r: usize)
        ensures
            r == self@.len(),
    {
        self.buffers.len()
    }

    /// The object at `index`, in allocation order.
    pub fn index(&self, index: usize) -> (r: &Buffer)
        requires
            index < self@.len(),
        ensures
            r@ == self@[index as int],
    {
        &self.buffers[index]
    }

    /// The objects, in allocation order.
    pub fn iter(&self) -> (r: &[Buffer])
        ensures
            r@.map_values(|h: Buffer| h@) == self@,
    {
        self.buffers.as_slice()
    }

    /// Hands the objects out one by one, in allocation order.
    pub fn into_iter(self) -> (r: IntoIter)
        ensures
            r@ == self@,
    {
        IntoIter { buffers: self.buffers }
    }

    /// Gives all objects up in one batched deletion call.
    pub fn delete(self, context: &mut Context)
        ensures
            appended_one(old(context)@, final(context)@, |c: Command| deletes(c, Kind::Buffer, self@)),
    {
        let mut ids: Vec<u32> = Vec::with_capacity(self.buffers.len());
        let mut i: usize = 0;
        while i < self.buffers.len()
            invariant
                i <= self@.len(),
                ids@ == self@.take(i as int),
            decreases self@.len() - i,
        {
            ids.push(self.buffers[i].id());
            i = i + 1;
            assert(ids@ =~= self@.take(i as int));
        }
        assert(ids@ =~= self@);
        context.push(Command::Delete(Kind::Buffer, ids));
    }
}

/// The objects of a batch that have not been handed out yet.
pub struct IntoIter {
    buffers: Vec<Buffer>,
}

impl View for IntoIter {
    /// The device's names for the objects still held, in allocation order.
    type V = Seq<u32>;

    closed spec fn view(&self) -> Seq<u32> {
        self.buffers@.map_values(|h: Buffer| h@)
    }
}

impl IntoIter {
    /// Hands out the next object; it leaves the batch and is the caller's
    /// to delete.
    pub fn next(&mut self) -> (r: Option<Buffer>)
        ensures
            old(self)@.len() == 0 ==> r is None && final(self)@ == old(self)@,
            old(self)@.len() > 0 ==> r is Some && r->Some_0@ == old(self)@[0]
                && final(self)@ == old(self)@.drop_first(),
    {
        if self.buffers.len() == 0 {
            None
        } else {
            let h = self.buffers.remove(0);
            assert(self@ =~= old(self)@.drop_first());
            Some(h)
        }
    }

    /// Gives up the objects still held, one deletion call each, in
    /// allocation order. Objects handed out before are not touched.
    pub fn delete(self, context: &mut Context)
        ensures
            final(context)@.len() == old(context)@.len() + self@.len(),
            final(context)@.take(old(context)@.len() as int) == old(context)@,
            forall|i: int|
                0 <= i < self@.len() ==> deletes(
                    #[trigger] final(context)@[old(context)@.len() + i],
                    Kind::Buffer,
                    seq![self@[i]],
                ),
    {
        let mut i: usize = 0;
        while i < self.buffers.len()
            invariant
                i <= self@.len(),
                context@.len() == old(context)@.len() + i,
                context@.take(old(context)@.len() as int) == old(context)@,
                forall|j: int|
                    0 <= j < i ==> deletes(
                        #[trigger] context@[old(context)@.len() + j],
                        Kind::Buffer,
                        seq![self@[j]],
                    ),
            decreases self@.len() - i,
        {
            let ids: Vec<u32> = vec![self.buffers[i].id()];
            assert(ids@ =~= seq![self@[i as int]]);
            context.push(Command::Delete(Kind::Buffer, ids));
            assert(context@.take(old(context)@.len() as int) =~= old(context)@);
            i = i + 1;
        }
    }
}

impl Buffer {
    /// Makes this buffer the current one for `target`.
    pub fn bind(&self, context: &mut Context, target: Target)
        ensures
            final(context)@ == old(context)@.push(Command::BindBuffer(target.gl_target(), self@)),
    {
        context.push(Command::BindBuffer(target.to_gl_target(), self.buffer));
    }

    /// Leaves no buffer current for `target`.
    pub fn unbind(context: &mut Context, target: Target)
        ensures
            final(context)@ == old(context)@.push(Command::BindBuffer(target.gl_target(), 0)),
    {
        context.push(Command::BindBuffer(target.to_gl_target(), 0));
    }

    /// Describes attribute `index` of the current array as `count`
    /// components of kind `ty`, `stride` bytes apart and starting at byte
    /// `offset` of the current array buffer, and enables it.
    pub fn mark(
        context: &mut Context,
        ty: GlType,
        index: u32,
        count: usize,
        should_normlized: bool,
        stride: usize,
        offset: usize,
    )
        requires
            count <= MAX_STRIDE,
            stride <= MAX_STRIDE,
        ensures
            final(context)@ == old(context)@ + seq![
                Command::VertexAttribPointer {
                    index,
                    size: count as i32,
                    ty: ty.gl_type(),
                    normalized: should_normlized,
                    stride: stride as i32,
                    offset,
                },
                Command::EnableVertexAttribArray(index),
            ],
    {
        context.push(
            Command::VertexAttribPointer {
                index,
                size: count as i32,
                ty: ty.to_gl_type(),
                normalized: should_normlized,
                stride: stride as i32,
                offset,
            },
        );
        context.push(Command::EnableVertexAttribArray(index));
        assert(context@ =~= old(context)@ + seq![
            Command::VertexAttribPointer {
                index,
                size: count as i32,
                ty: ty.gl_type(),
                normalized: should_normlized,
                stride: stride as i32,
                offset,
            },
            Command::EnableVertexAttribArray(index),
        ]);
    }

    /// Sets up the attributes of the current array from `composition`, none
    /// of them normalized: entry `i` becomes attribute `i`.
    pub fn gen_mark(context: &mut Context, composition: &[(GlType, usize)]) -> (r: Result<(), Error>)
        ensures
            r is Ok <==> layout_valid(not_normalized(composition@)),
            r is Ok ==> final(context)@ == old(context)@ + layout_entries(not_normalized(composition@)),
            r is Err ==> r->Err_0.is_invalid_argument() && final(context)@ == old(context)@,
    {
        let mut entries: Vec<Entry> = Vec::with_capacity(composition.len());
        let mut i: usize = 0;
        while i < composition.len()
            invariant
                i <= composition@.len(),
                entries@ == not_normalized(composition@).take(i as int),
            decreases composition@.len() - i,
        {
            let (ty, count) = composition[i];
            entries.push((ty, count, false));
            i = i + 1;
            assert(entries@ =~= not_normalized(composition@).take(i as int));
        }
        assert(entries@ =~= not_normalized(composition@));
        Self::gen_mark_with_normalized(context, entries.as_slice())
    }

    /// Sets up the attributes of the current array from `composition`:
    /// entry `i` becomes attribute `i`, described with the stride of the
    /// whole record and the offset of the entry, and is enabled. Fails, and
    /// asks for nothing, if an entry has no components or the stride is
    /// larger than the device accepts.
    pub fn gen_mark_with_normalized(context: &mut Context, composition: &[Entry]) -> (r: Result<(), Error>)
        ensures
            r is Ok <==> layout_valid(composition@),
            r is Ok ==> final(context)@ == old(context)@ + layout_entries(composition@),
            r is Err ==> r->Err_0.is_invalid_argument() && final(context)@ == old(context)@,
    {
        let d = Ghost(composition@);
        let mut stride: usize = 0;
        let mut i: usize = 0;
        while i < composition.len()
            invariant
                d@ == composition@,
                i <= d@.len(),
                stride == stride_of(d@.take(i as int)),
                stride <= MAX_STRIDE,
                forall|j: int| 0 <= j < i ==> #[trigger] d@[j].1 > 0,
            decreases d@.len() - i,
        {
            let (ty, count, _) = composition[i];
            if count == 0 {
                return Err(Error::InvalidArgument("an entry has no components".to_owned()));
            }
            let size = ty.size();
            proof {
                lemma_stride_step(d@, i as int);
                lemma_prefix_bounded(d@, i as int + 1);
            }
            if count > (MAX_STRIDE - stride) / size {
                let room = Ghost((MAX_STRIDE - stride) as int);
                assert(size * count > room@) by (nonlinear_arith)
                    requires
                        count > room@ / (size as int),
                        size > 0,
                ;
                return Err(Error::InvalidArgument("the stride is too large".to_owned()));
            }
            let room = Ghost((MAX_STRIDE - stride) as int);
            assert(size * count <= room@) by (nonlinear_arith)
                requires
                    count <= room@ / (size as int),
                    size > 0,
                    room@ >= 0,
            ;
            stride = stride + size * count;
            i = i + 1;
        }
        assert(d@.take(d@.len() as int) =~= d@);
        proof {
            lemma_stride_covers_entries(d@);
        }
        let mut offset: usize = 0;
        let mut j: usize = 0;
        while j < composition.len()
            invariant
                d@ == composition@,
                layout_valid(d@),
                stride == stride_of(d@),
                stride_of(d@) >= d@.len(),
                j <= d@.len(),
                offset == offset_of(d@, j as int),
                context@ == old(context)@ + layout_commands(d@, j as int),
            decreases d@.len() - j,
        {
            let (ty, count, normalized) = composition[j];
            let size = ty.size();
            proof {
                lemma_offsets_are_prefix_sums(d@, j as int);
                assert(count <= size * count) by (nonlinear_arith)
                    requires
                        size >= 1,
                ;
                lemma_layout_step(d@, j as int);
            }
            context.push(
                Command::VertexAttribPointer {
                    index: j as u32,
                    size: count as i32,
                    ty: ty.to_gl_type(),
                    normalized,
                    stride: stride as i32,
                    offset,
                },
            );
            context.push(Command::EnableVertexAttribArray(j as u32));
            assert(context@ =~= old(context)@ + layout_commands(d@, j as int + 1));
            offset = offset + size * count;
            j = j + 1;
        }
        Ok(())
    }

    /// Replaces the data store of this buffer with `data`.
    pub fn data(&self, context: &mut Context, data: &[u8], usage: Usage)
        ensures
            appended_one(
                old(context)@,
                final(context)@,
                |c: Command|
                    match c {
                        Command::BufferData { buffer, data: d, usage: u } => buffer == self@ && d@
                            == data@ && u == usage.gl_usage(),
                        _ => false,
                    },
            ),
    {
        let bytes = vstd::slice::slice_to_vec(data);
        context.push(Command::BufferData { buffer: self.buffer, data: bytes, usage: usage.to_gl_usage() });
    }

    /// Overwrites part of the data store of this buffer, from byte `offset` on.
    pub fn sub_data(&self, context: &mut Context, offset: usize, data: &[u8])
        ensures
            appended_one(
                old(context)@,
                final(context)@,
                |c: Command|
                    match c {
                        Command::BufferSubData { buffer, offset: o, data: d } => buffer == self@ && o
                            == offset && d@ == data@,
                        _ => false,
                    },
            ),
    {
        let bytes = vstd::slice::slice_to_vec(data);
        context.push(Command::BufferSubData { buffer: self.buffer, offset, data: bytes });
    }
}

} // verus!
