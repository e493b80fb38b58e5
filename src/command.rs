//! The native calls that the library asks the device to perform.
use crate::tex_param::TexParamPair;
use vstd::prelude::*;

verus! {

/// The kinds of object that the device hands out names for.
#[derive(Debug, Clone, Copy, PartialEq, Eq, Structural, Hash)]
pub enum Kind {
    Array,
    Buffer,
    Shader,
    Program,
    Texture,
    FrameBuffer,
    RenderBuffer,
}

/// A value for a uniform, in the shape of the native call that uploads it.
///
/// Floating-point components travel as the bit patterns of single-precision
/// floats; matrices are in column-major order.
#[derive(Debug, Clone, Copy, PartialEq, Eq)]
pub enum UniformValue {
    Float(u32),
    Vec2([u32; 2]),
    Vec3([u32; 3]),
    Vec4([u32; 4]),
    Int(i32),
    IVec2([i32; 2]),
    IVec3([i32; 3]),
    IVec4([i32; 4]),
    UInt(u32),
    Mat2([u32; 4]),
    Mat3([u32; 9]),
    Mat4([u32; 16]),
}

/// One native call, with its arguments already translated into native
/// constants.
#[derive(Debug, Clone, PartialEq, Eq)]
pub enum Command {
    /// Deletes these objects of one kind in one batched call.
    Delete(Kind, Vec<u32>),
    BindVertexArray(u32),
    /// Binding point, then buffer.
    BindBuffer(u32, u32),
    /// Binding point, then texture.
    BindTexture(u32, u32),
    /// Binding point, then framebuffer.
    BindFramebuffer(u32, u32),
    /// Binding point, then renderbuffer.
    BindRenderbuffer(u32, u32),
    UseProgram(u32),
    /// The native constant of the texture unit to make active.
    ActiveTexture(u32),
    VertexAttribPointer {
        index: u32,
        size: i32,
        ty: u32,
        normalized: bool,
        stride: i32,
        offset: usize,
    },
    EnableVertexAttribArray(u32),
    BufferData { buffer: u32, data: Vec<u8>, usage: u32 },
    BufferSubData { buffer: u32, offset: usize, data: Vec<u8> },
    ShaderSource(u32, String),
    CompileShader(u32),
    /// Program, then shader.
    AttachShader(u32, u32),
    LinkProgram(u32),
    Uniform { program: u32, location: i32, value: UniformValue },
    TexParameter(u32, TexParamPair),
    GenerateMipmap(u32),
    TexImage2D {
        target: u32,
        internal_format: u32,
        width: u32,
        height: u32,
        format: u32,
        ty: u32,
        data: Vec<u8>,
    },
    FramebufferTexture2D { target: u32, attachment: u32, tex_target: u32, texture: u32 },
    RenderbufferStorage { format: u32, width: u32, height: u32 },
    Viewport(i32, i32, i32, i32),
    /// Red, green, blue and alpha, as single-precision bit patterns.
    ClearColor(u32, u32, u32, u32),
    Clear(u32),
    Enable(u32),
    Disable(u32),
    DepthMask(bool),
    DepthFunc(u32),
    StencilMask(u32),
    StencilFunc(u32, i32, u32),
    StencilOp(u32, u32, u32),
    BlendFunc(u32, u32),
    BlendFuncSeparate(u32, u32, u32, u32),
    BlendEquation(u32),
    CullFace(u32),
    FrontFace(u32),
    DrawArrays(u32, i32, i32),
    DrawElements { mode: u32, count: usize, ty: u32, offset: usize },
}

/// `c` deletes exactly `ids`, objects of kind `kind`, in one call.
pub open spec fn deletes(c: Command, kind: Kind, ids: Seq<u32>) -> bool {
    match c {
        Command::Delete(k, v) => k == kind && v@ == ids,
        _ => false,
    }
}

/// Giving up a batch of `n` distinct objects in its one deletion call names
/// each of them exactly once, and nothing else: `n` deletions for `n`
/// allocations.
pub proof fn lemma_batch_deletes_each_once(c: Command, kind: Kind, ids: Seq<u32>)
    requires
        deletes(c, kind, ids),
        ids.no_duplicates(),
    ensures
        match c {
            Command::Delete(_, v) => {
                &&& v@.len() == ids.len()
                &&& forall|x: u32| #[trigger] v@.to_multiset().count(x) == if ids.contains(x) { 1nat } else { 0nat }
            },
            _ => false,
        },
{
    ids.lemma_multiset_has_no_duplicates();
    assert forall|x: u32| #[trigger] ids.to_multiset().count(x) == if ids.contains(x) { 1nat } else { 0nat } by {
        ids.to_multiset_ensures();
    }
}

/// The names still held by a consuming iteration over a batch `ids` once
/// `k` objects have been handed out: each `next` hands out the first one.
pub open spec fn held_after(ids: Seq<u32>, k: nat) -> Seq<u32>
    decreases k,
{
    if k == 0 || ids.len() == 0 {
        ids
    } else {
        held_after(ids.drop_first(), (k - 1) as nat)
    }
}

/// Consuming iteration never deletes an object twice nor loses one: after
/// `k` objects of a batch have been handed out, those still held, which are
/// what giving up the rest deletes, are exactly the batch without the ones
/// handed out. So no object handed out is deleted with the rest.
pub proof fn lemma_handed_out_not_deleted(ids: Seq<u32>, k: nat)
    requires
        k <= ids.len(),
        ids.no_duplicates(),
    ensures
        held_after(ids, k) == ids.skip(k as int),
        ids.take(k as int) + held_after(ids, k) == ids,
        forall|i: int| 0 <= i < k ==> !held_after(ids, k).contains(#[trigger] ids[i]),
    decreases k,
{
    if k == 0 {
        assert(ids.skip(0) =~= ids);
        assert(ids.take(0) + ids =~= ids);
    } else {
        let rest = ids.drop_first();
        assert(rest.no_duplicates());
        lemma_handed_out_not_deleted(rest, (k - 1) as nat);
        assert(rest.skip(k - 1) =~= ids.skip(k as int));
        assert(ids.take(k as int) + ids.skip(k as int) =~= ids);
        assert forall|i: int| 0 <= i < k implies !held_after(ids, k).contains(#[trigger] ids[i]) by {
            if held_after(ids, k).contains(ids[i]) {
                let j = choose|j: int| 0 <= j < ids.skip(k as int).len() && ids.skip(k as int)[j] == ids[i];
                assert(ids[k + j] == ids[i]);
            }
        }
    }
}

} // verus!
