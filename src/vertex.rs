//! A vertex object: one vertex array together with the buffers whose
//! attribute state it records.
use crate::array::Array;
use crate::buffer::Buffer;
use crate::command::{deletes, Command, Kind};
use crate::context::Context;
use vstd::prelude::*;

verus! {

/// A vertex array and the buffers configured while it was bound.
pub struct Vertex {
    array: Array,
    buffers: Vec<Buffer>,
}

impl View for Vertex {
    /// The name of the array, and the names of the buffers in the order in
    /// which they were added.
    type V = (u32, Seq<u32>);

    closed spec fn view(&self) -> (u32, Seq<u32>) {
        (self.array@, self.buffers@.map_values(|b: Buffer| b@))
    }
}

impl Vertex {
    /// A vertex object over the vertex array that the device named
    /// `array`, with no buffers yet.
    pub fn new(context: &Context, array: u32) -> (r: Self)
        ensures
            r@ == (array, Seq::<u32>::empty()),
    {
        let r = Vertex { array: context.new_array(array), buffers: Vec::new() };
        assert(r@.1 =~= Seq::<u32>::empty());
        r
    }

    /// Adds the buffer that the device named `buffer`, binding this
    /// object's array first, and hands the buffer back to be configured
    /// while the array is still bound.
    pub fn new_buffer(&mut self, context: &mut Context, buffer: u32) -> (r: &Buffer)
        ensures
            final(context)@ == old(context)@.push(Command::BindVertexArray(old(self)@.0)),
            final(self)@ == (old(self)@.0, old(self)@.1.push(buffer)),
            r@ == buffer,
    {
        let b = context.new_buffer(buffer);
        self.array.bind(context);
        self.buffers.push(b);
        assert(self@.1 =~= old(self)@.1.push(buffer));
        let last = self.buffers.len() - 1;
        &self.buffers[last]
    }

    /// Makes this object's array the current one.
    pub fn using(&self, context: &mut Context)
        ensures
            final(context)@ == old(context)@.push(Command::BindVertexArray(self@.0)),
    {
        self.array.bind(context);
    }

    /// Gives the array and all buffers up: one deletion call for the
    /// buffers, in the order they were added, and then one for the array.
    pub fn delete(self, context: &mut Context)
        ensures
            final(context)@.len() == old(context)@.len() + 2,
            final(context)@.take(old(context)@.len() as int) == old(context)@,
            deletes(final(context)@[old(context)@.len() as int], Kind::Buffer, self@.1),
            deletes(final(context)@[old(context)@.len() as int + 1], Kind::Array, seq![self@.0]),
    {
        let Vertex { array, buffers } = self;
        let mut ids: Vec<u32> = Vec::with_capacity(buffers.len());
        let mut i: usize = 0;
        while i < buffers.len()
            invariant
                i <= buffers@.len(),
                ids@ == buffers@.map_values(|b: Buffer| b@).take(i as int),
            decreases buffers@.len() - i,
        {
            ids.push(buffers[i].id());
            i = i + 1;
            assert(ids@ =~= buffers@.map_values(|b: Buffer| b@).take(i as int));
        }
        assert(ids@ =~= buffers@.map_values(|b: Buffer| b@));
        context.push(Command::Delete(Kind::Buffer, ids));
        array.delete(context);
        assert(context@.take(old(context)@.len() as int) =~= old(context)@);
    }
}

} // verus!
