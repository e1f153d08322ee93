//! Trusted boundary around `minivec::MiniVec<u8>`, the backing store of each
//! colour channel. The rest of the crate reasons about a channel buffer only
//! through `mv_seq`, the sequence of bytes it holds.

use vstd::prelude::*;

verus! {

#[verifier::external_type_specification]
#[verifier::external_body]
#[verifier::reject_recursive_types(T)]
pub struct ExMiniVec<T>(minivec::MiniVec<T>);

/// The bytes held by a channel buffer, in order.
pub uninterp spec fn mv_seq(v: minivec::MiniVec<u8>) -> Seq<u8>;

/// Relies on `minivec::MiniVec::new`: a freshly constructed vector holds no
/// elements.
#[verifier::external_body]
pub(crate) fn mv_new() -> (v: minivec::MiniVec<u8>)
    ensures
        mv_seq(v) == Seq::<u8>::empty(),
{
    minivec::MiniVec::new()
}

/// Relies on `minivec::MiniVec::with_capacity`: the vector starts out empty,
/// whatever capacity it reserves. The bound on `cap` keeps the layout
/// computation (a header plus `cap` bytes, rounded up for alignment) from
/// overflowing `usize`.
#[verifier::external_body]
pub(crate) fn mv_with_capacity(cap: usize) -> (v: minivec::MiniVec<u8>)
    requires
        cap < usize::MAX / 2,
    ensures
        mv_seq(v) == Seq::<u8>::empty(),
{
    minivec::MiniVec::with_capacity(cap)
}

/// Relies on `minivec::MiniVec::push`: appends one byte at the end of the
/// buffer. The length bound keeps the doubling growth policy away from
/// capacity arithmetic that could overflow.
#[verifier::external_body]
pub(crate) fn mv_push(v: &mut minivec::MiniVec<u8>, val: u8)
    requires
        mv_seq(*old(v)).len() < usize::MAX / 2,
    ensures
        mv_seq(*final(v)) == mv_seq(*old(v)).push(val),
{
    v.push(val);
}

/// Relies on `minivec::MiniVec::as_slice`: a read-only view of the whole
/// buffer, element for element.
#[verifier::external_body]
pub(crate) fn mv_as_slice(v: &minivec::MiniVec<u8>) -> (s: &[u8])
    ensures
        s@ == mv_seq(*v),
{
    v.as_slice()
}

} // verus!
