//! Diagnostic logs that the device writes when a shader fails to compile or
//! a program fails to link.
use vstd::prelude::*;

verus! {

/// The text that `String::from_utf8_lossy` makes of these bytes.
pub uninterp spec fn lossy_text(bytes: Seq<u8>) -> Seq<char>;

/// Relies on `String::from_utf8_lossy`: the bytes read as UTF-8, each
/// invalid sequence replaced by U+FFFD, so no input byte is lost without a
/// character in its place.
#[verifier::external_body]
fn decode_lossy(bytes: &[u8]) -> (r: String)
    ensures
        r@ == lossy_text(bytes@),
        bytes@.len() > 0 ==> r@.len() > 0,
{
    String::from_utf8_lossy(bytes).into_owned()
}

/// The bytes of a log before its terminating NUL (all of them if it has none).
pub open spec fn log_body(bytes: Seq<u8>) -> Seq<u8>
    decreases bytes.len(),
{
    if bytes.len() == 0 || bytes[0] == 0 {
        Seq::empty()
    } else {
        seq![bytes[0]] + log_body(bytes.drop_first())
    }
}

/// The number of bytes to read for a log whose length, terminating NUL
/// included, the device reported as `reported`.
pub fn log_len(reported: i32) -> (r: usize)
    ensures
        reported <= 0 ==> r == 0,
        reported > 0 ==> r == reported,
{
    if reported <= 0 {
        0
    } else {
        reported as usize
    }
}

/// The text of a log as the device wrote it: the bytes before the
/// terminating NUL, taken as UTF-8 without rejecting what is not.
pub fn log_text(bytes: &[u8]) -> (r: String)
    ensures
        r@ == lossy_text(log_body(bytes@)),
        log_body(bytes@).len() > 0 ==> r@.len() > 0,
{
    let mut n: usize = 0;
    while n < bytes.len() && bytes[n] != 0
        invariant
            n <= bytes@.len(),
            forall|k: int| 0 <= k < n ==> bytes@[k] != 0,
        decreases bytes@.len() - n,
    {
        n = n + 1;
    }
    proof {
        lemma_log_body_prefix(bytes@, n as int);
    }
    decode_lossy(vstd::slice::slice_subrange(bytes, 0, n))
}

/// A log with no NUL among its first `n` bytes, and a NUL or its end at
/// byte `n`, has those `n` bytes as its body.
proof fn lemma_log_body_prefix(bytes: Seq<u8>, n: int)
    requires
        0 <= n <= bytes.len(),
        forall|k: int| 0 <= k < n ==> bytes[k] != 0,
        n == bytes.len() || bytes[n] == 0,
    ensures
        log_body(bytes) == bytes.subrange(0, n),
    decreases n,
{
    if n == 0 {
        assert(bytes.subrange(0, 0) =~= Seq::<u8>::empty());
    } else {
        let rest = bytes.drop_first();
        assert forall|k: int| 0 <= k < n - 1 implies rest[k] != 0 by {
            assert(rest[k] == bytes[k + 1]);
        }
        lemma_log_body_prefix(rest, n - 1);
        assert(bytes.subrange(0, n) =~= seq![bytes[0]] + rest.subrange(0, n - 1));
    }
}

} // verus!
