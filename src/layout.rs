//! The vertex attribute layout of a composition descriptor: an ordered list
//! of (scalar kind, component count, normalized) entries describing one
//! vertex record. Entry `i` becomes attribute `i`; its byte offset is the sum
//! of the sizes of the entries before it, and the stride is the sum of all.
use crate::command::Command;
use crate::enums::GlType;
use vstd::prelude::*;

verus! {

/// One entry of a composition: scalar kind, component count, and whether
/// integer data is normalized.
pub type Entry = (GlType, usize, bool);

/// The largest stride, in bytes, that the device accepts.
pub const MAX_STRIDE: usize = 0x7fff_ffff;

/// The size of one entry, in bytes.
pub open spec fn entry_bytes(e: Entry) -> int {
    e.0.byte_size() * e.1
}

/// The stride of a composition: the sum of the sizes of its entries.
pub open spec fn stride_of(d: Seq<Entry>) -> int
    decreases d.len(),
{
    if d.len() == 0 {
        0
    } else {
        stride_of(d.drop_last()) + entry_bytes(d.last())
    }
}

/// The byte offset of entry `i`: the sum of the sizes of the entries before it.
pub open spec fn offset_of(d: Seq<Entry>, i: int) -> int {
    stride_of(d.take(i))
}

/// A composition that the device can be given: no entry without components,
/// and a stride that the device accepts.
pub open spec fn layout_valid(d: Seq<Entry>) -> bool {
    &&& forall|i: int| 0 <= i < d.len() ==> #[trigger] d[i].1 > 0
    &&& stride_of(d) <= MAX_STRIDE
}

/// The composition with every entry not normalized.
pub open spec fn not_normalized(d: Seq<(GlType, usize)>) -> Seq<Entry> {
    d.map_values(|e: (GlType, usize)| (e.0, e.1, false))
}

/// The call that describes attribute `i` of `d`.
pub open spec fn attrib_command(d: Seq<Entry>, i: int) -> Command {
    Command::VertexAttribPointer {
        index: i as u32,
        size: d[i].1 as i32,
        ty: d[i].0.gl_type(),
        normalized: d[i].2,
        stride: stride_of(d) as i32,
        offset: offset_of(d, i) as usize,
    }
}

/// The calls that set up the first `n` attributes of `d`: for each, in
/// order, its description and then the call that enables it.
pub open spec fn layout_commands(d: Seq<Entry>, n: int) -> Seq<Command>
    decreases n,
{
    if n <= 0 {
        Seq::empty()
    } else {
        layout_commands(d, n - 1) + seq![
            attrib_command(d, n - 1),
            Command::EnableVertexAttribArray((n - 1) as u32),
        ]
    }
}

/// The calls that set up all attributes of `d`.
pub open spec fn layout_entries(d: Seq<Entry>) -> Seq<Command> {
    layout_commands(d, d.len() as int)
}

/// Adding one entry adds its size to the stride.
pub(crate) proof fn lemma_stride_step(d: Seq<Entry>, i: int)
    requires
        0 <= i < d.len(),
    ensures
        stride_of(d.take(i + 1)) == stride_of(d.take(i)) + entry_bytes(d[i]),
{
    assert(d.take(i + 1).drop_last() =~= d.take(i));
}

/// Sizes are never negative, so a prefix is never larger than the whole.
pub(crate) proof fn lemma_prefix_bounded(d: Seq<Entry>, i: int)
    requires
        0 <= i <= d.len(),
    ensures
        0 <= stride_of(d.take(i)) <= stride_of(d),
    decreases d.len() - i,
{
    if i == d.len() {
        assert(d.take(i) =~= d);
        lemma_nonnegative(d);
    } else {
        lemma_stride_step(d, i);
        lemma_prefix_bounded(d, i + 1);
        lemma_nonnegative(d.take(i));
    }
}

/// A stride is never negative.
pub(crate) proof fn lemma_nonnegative(d: Seq<Entry>)
    ensures
        stride_of(d) >= 0,
    decreases d.len(),
{
    if d.len() > 0 {
        lemma_nonnegative(d.drop_last());
    }
}

/// With every entry holding a component, the stride is at least the
/// number of entries.
pub(crate) proof fn lemma_stride_covers_entries(d: Seq<Entry>)
    requires
        forall|i: int| 0 <= i < d.len() ==> #[trigger] d[i].1 > 0,
    ensures
        stride_of(d) >= d.len(),
    decreases d.len(),
{
    if d.len() > 0 {
        let p = d.drop_last();
        assert forall|i: int| 0 <= i < p.len() implies #[trigger] p[i].1 > 0 by {
            assert(p[i] == d[i]);
        }
        lemma_stride_covers_entries(p);
        assert(d.last().1 > 0);
        assert(d.last().0.byte_size() >= 1);
        assert(entry_bytes(d.last()) >= 1) by (nonlinear_arith)
            requires
                d.last().0.byte_size() >= 1,
                d.last().1 >= 1,
        ;
    }
}

/// The offsets of a composition are the running sums of its entry sizes:
/// the first entry starts at 0, each next one where the one before ends, and
/// the last one ends at the stride; so no two attributes overlap and all lie
/// within one record.
pub proof fn lemma_offsets_are_prefix_sums(d: Seq<Entry>, i: int)
    requires
        0 <= i < d.len(),
    ensures
        offset_of(d, 0) == 0,
        offset_of(d, i + 1) == offset_of(d, i) + entry_bytes(d[i]),
        offset_of(d, d.len() as int) == stride_of(d),
        0 <= offset_of(d, i),
        offset_of(d, i) + entry_bytes(d[i]) <= stride_of(d),
{
    assert(d.take(0) =~= Seq::<Entry>::empty());
    assert(d.take(d.len() as int) =~= d);
    lemma_stride_step(d, i);
    lemma_prefix_bounded(d, i);
    lemma_prefix_bounded(d, i + 1);
}

/// Appending the calls for one more attribute.
pub(crate) proof fn lemma_layout_step(d: Seq<Entry>, n: int)
    requires
        0 <= n,
    ensures
        layout_commands(d, n + 1) == layout_commands(d, n) + seq![
            attrib_command(d, n),
            Command::EnableVertexAttribArray(n as u32),
        ],
{
}

} // verus!
