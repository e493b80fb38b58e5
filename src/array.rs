//! Vertex array objects.
use crate::command::{deletes, Command, Kind};
use crate::context::{appended_one, Context};
use crate::error::Error;
use vstd::prelude::*;

verus! {

/// A vertex array object.
pub struct Array {
    array: u32,
}

impl View for Array {
    /// The device's name for the object.
    type V = u32;

    closed spec fn view(&self) -> u32 {
        self.array
    }
}

impl Array {
    pub(crate) fn new(array: u32) -> (r: Self)
        ensures
            r@ == array,
    {
        Self { array }
    }

    /// The device's name for the object.
    pub fn id(&self) -> (r: u32)
        ensures
            r == self@,
    {
        self.array
    }

    /// Gives the object up: one deletion call for its name.
    pub fn delete(self, context: &mut Context)
        ensures
            appended_one(old(context)@, final(context)@, |c: Command| deletes(c, Kind::Array, seq![self@])),
    {
        let ids: Vec<u32> = vec![self.array];
        assert(ids@ =~= seq![self.array]);
        context.push(Command::Delete(Kind::Array, ids));
    }
}

/// Vertex array objects from one batched generate call.
pub struct Arrays {
    arrays: Vec<Array>,
}

impl View for Arrays {
    /// The device's names for the objects, in allocation order.
    type V = Seq<u32>;

    closed spec fn view(&self) -> Seq<u32> {
        self.arrays@.map_values(|h: Array| h@)
    }
}

impl Arrays {
    /// Takes ownership of the objects that one batched generate call named;
    /// an empty batch is refused.
    pub(crate) fn new(ids: Vec<u32>) -> (r: Result<Self, Error>)
        ensures
            r is Ok <==> ids@.len() > 0,
            r is Ok ==> r->Ok_0@ == ids@,
            r is Err ==> r->Err_0.is_invalid_argument(),
    {
        if ids.len() == 0 {
            return Err(Error::InvalidArgument("a batch must hold at least one object".to_owned()));
        }
        let mut arrays: Vec<Array> = Vec::with_capacity(ids.len());
        let mut i: usize = 0;
        while i < ids.len()
            invariant
                i <= ids@.len(),
                arrays@.len() == i,
                forall|j: int| 0 <= j < i ==> #[trigger] arrays@[j]@ == ids@[j],
            decreases ids@.len() - i,
        {
            arrays.push(Array::new(ids[i]));
            i = i + 1;
        }
        let r = Self { arrays };
        assert(r@ =~= ids@);
        Ok(r)
    }

    /// The number of objects.
    pub fn count(&self) -> (r: usize)
        ensures
            r == self@.len(),
    {
        self.arrays.len()
    }

    /// The object at `index`, in allocation order.
    pub fn index(&self, index: usize) -> (r: &Array)
        requires
            index < self@.len(),
        ensures
            r@ == self@[index as int],
    {
        &self.arrays[index]
    }

    /// The objects, in allocation order.
    pub fn iter(&self) -> (r: &[Array])
        ensures
            r@.map_values(|h: Array| h@) == self@,
    {
        self.arrays.as_slice()
    }

    /// Hands the objects out one by one, in allocation order.
    pub fn into_iter(self) -> (r: IntoIter)
        ensures
            r@ == self@,
    {
        IntoIter { arrays: self.arrays }
    }

    /// Gives all objects up in one batched deletion call.
    pub fn delete(self, context: &mut Context)
        ensures
            appended_one(old(context)@, final(context)@, |c: Command| deletes(c, Kind::Array, self@)),
    {
        let mut ids: Vec<u32> = Vec::with_capacity(self.arrays.len());
        let mut i: usize = 0;
        while i < self.arrays.len()
            invariant
                i <= self@.len(),
                ids@ == self@.take(i as int),
            decreases self@.len() - i,
        {
            ids.push(self.arrays[i].id());
            i = i + 1;
            assert(ids@ =~= self@.take(i as int));
        }
        assert(ids@ =~= self@);
        context.push(Command::Delete(Kind::Array, ids));
    }
}

/// The objects of a batch that have not been handed out yet.
pub struct IntoIter {
    arrays: Vec<Array>,
}

impl View for IntoIter {
    /// The device's names for the objects still held, in allocation order.
    type V = Seq<u32>;

    closed spec fn view(&self) -> Seq<u32> {
        self.arrays@.map_values(|h: Array| h@)
    }
}

impl IntoIter {
    /// Hands out the next object; it leaves the batch and is the caller's
    /// to delete.
    pub fn next(&mut self) -> (r: Option<Array>)
        ensures
            old(self)@.len() == 0 ==> r is None && final(self)@ == old(self)@,
            old(self)@.len() > 0 ==> r is Some && r->Some_0@ == old(self)@[0]
                && final(self)@ == old(self)@.drop_first(),
    {
        if self.arrays.len() == 0 {
            None
        } else {
            let h = self.arrays.remove(0);
            assert(self@ =~= old(self)@.drop_first());
            Some(h)
        }
    }

    /// Gives up the objects still held, one deletion call each, in
    /// allocation order. Objects handed out before are not touched.
    pub fn delete(self, context: &mut Context)
        ensures
            final(context)@.len() == old(context)@.len() + self@.len(),
            final(context)@.take(old(context)@.len() as int) == old(context)@,
            forall|i: int|
                0 <= i < self@.len() ==> deletes(
                    #[trigger] final(context)@[old(context)@.len() + i],
                    Kind::Array,
                    seq![self@[i]],
                ),
    {
        let mut i: usize = 0;
        while i < self.arrays.len()
            invariant
                i <= self@.len(),
                context@.len() == old(context)@.len() + i,
                context@.take(old(context)@.len() as int) == old(context)@,
                forall|j: int|
                    0 <= j < i ==> deletes(
                        #[trigger] context@[old(context)@.len() + j],
                        Kind::Array,
                        seq![self@[j]],
                    ),
            decreases self@.len() - i,
        {
            let ids: Vec<u32> = vec![self.arrays[i].id()];
            assert(ids@ =~= seq![self@[i as int]]);
            context.push(Command::Delete(Kind::Array, ids));
            assert(context@.take(old(context)@.len() as int) =~= old(context)@);
            i = i + 1;
        }
    }
}

impl Array {
    /// Makes this array the current one.
    pub fn bind(&self, context: &mut Context)
        ensures
            final(context)@ == old(context)@.push(Command::BindVertexArray(self@)),
    {
        context.push(Command::BindVertexArray(self.array));
    }

    /// Leaves no array current.
    pub fn unbind(context: &mut Context)
        ensures
            final(context)@ == old(context)@.push(Command::BindVertexArray(0)),
    {
        context.push(Command::BindVertexArray(0));
    }
}

} // verus!
