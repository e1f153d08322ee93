//! The lazy per-pixel pipeline: a zip over the three channels of an image and
//! a greyscale (luma) adaptor over any source of RGB triples.

use vstd::prelude::*;

use crate::image::RgbImg;

verus! {

/// The triples `(r[i], g[i], b[i])` of three equal-length channels, in pixel
/// order.
pub open spec fn triples_of(r: Seq<u8>, g: Seq<u8>, b: Seq<u8>) -> Seq<(u8, u8, u8)> {
    Seq::new(r.len(), |i: int| (r[i], g[i], b[i]))
}

/// The BT.709-derived luma of a pixel, scaled by `10^8`: the three channel
/// weights `0.21263901`, `0.71516868` and `0.07219232` applied to the raw
/// channel bytes.
pub open spec fn luma_weight(r: u8, g: u8, b: u8) -> int {
    21263901 * (r as int) + 71516868 * (g as int) + 7219232 * (b as int)
}

/// The greyscale byte of a pixel: the weighted sum truncated toward zero,
/// saturated at `255` where the luma reaches full brightness.
pub open spec fn luma_of(r: u8, g: u8, b: u8) -> u8 {
    if luma_weight(r, g, b) >= 25500000000 {
        255u8
    } else {
        (luma_weight(r, g, b) / 100000000) as u8
    }
}

/// Converts one RGB triple to its greyscale byte.
pub fn luma(r: u8, g: u8, b: u8) -> (l: u8)
    ensures
        l == luma_of(r, g, b),
{
    let w: u64 = 21263901 * (r as u64) + 71516868 * (g as u64) + 7219232 * (b as u64);
    if w >= 25500000000 {
        255
    } else {
        (w / 100000000) as u8
    }
}

/// A finite source of RGB triples, consumed one triple at a time.
///
/// `remaining()` is the sequence of triples the source will still yield, and
/// `wf()` is whatever shape the implementor needs to keep that sequence
/// meaningful; both are preserved by every call.
pub trait RgbSource: Sized {
    spec fn wf(&self) -> bool;

    spec fn remaining(&self) -> Seq<(u8, u8, u8)>;

    /// Yields the next triple, or `None` once the source is exhausted.
    fn next_triple(&mut self) -> (t: Option<(u8, u8, u8)>)
        requires
            old(self).wf(),
        ensures
            final(self).wf(),
            old(self).remaining().len() > 0 ==> t == Some(old(self).remaining()[0])
                && final(self).remaining() == old(self).remaining().drop_first(),
            old(self).remaining().len() == 0 ==> t is None && final(self).remaining() == old(
                self,
            ).remaining(),
    ;

    /// The exact number of triples still to come, in the shape of
    /// `Iterator::size_hint`.
    fn size_hint(&self) -> (s: (usize, Option<usize>))
        requires
            self.wf(),
        ensures
            s.0 == self.remaining().len(),
            s.1 == Some(s.0),
    ;
}

/// A zip over the three channels of an `RgbImg`: three cursors advanced in
/// lockstep, yielding one `(r, g, b)` triple per pixel.
pub struct RgbIter<'a> {
    r_: &'a [u8],
    g_: &'a [u8],
    b_: &'a [u8],
    pos: usize,
}

impl<'a> RgbSource for RgbIter<'a> {
    /// The three borrowed channels have equal length and the cursor has not
    /// run past their end.
    closed spec fn wf(&self) -> bool {
        &&& self.g_@.len() == self.r_@.len()
        &&& self.b_@.len() == self.r_@.len()
        &&& self.pos <= self.r_@.len()
    }

    closed spec fn remaining(&self) -> Seq<(u8, u8, u8)> {
        Seq::new(
            (self.r_@.len() - self.pos) as nat,
            |i: int| (self.r_@[self.pos + i], self.g_@[self.pos + i], self.b_@[self.pos + i]),
        )
    }

    fn next_triple(&mut self) -> (t: Option<(u8, u8, u8)>) {
        // stop as soon as any one cursor is exhausted; with equal-length
        // channels all three exhaust together
        if self.pos < self.r_.len() && self.pos < self.g_.len() && self.pos < self.b_.len() {
            let t = (self.r_[self.pos], self.g_[self.pos], self.b_[self.pos]);
            self.pos = self.pos + 1;
            proof {
                assert(final(self).remaining() =~= old(self).remaining().drop_first());
            }
            Some(t)
        } else {
            None
        }
    }

    fn size_hint(&self) -> (s: (usize, Option<usize>)) {
        let n = self.r_.len() - self.pos;
        (n, Some(n))
    }
}

impl RgbImg {
    /// An iterator over the image's pixels, yielding `(r, g, b)` triples in
    /// pixel order.
    pub fn iter(&self) -> (it: RgbIter)
        requires
            self.wf(),
        ensures
            it.wf(),
            it.remaining() == triples_of(self.red(), self.green(), self.blue()),
            it.remaining().len() == self.spec_total(),
    {
        let it = RgbIter { r_: self.r(), g_: self.g(), b_: self.b(), pos: 0 };
        proof {
            assert(it.remaining() =~= triples_of(self.red(), self.green(), self.blue()));
        }
        it
    }
}

/// A lazy greyscale adaptor: wraps any source of RGB triples and yields the
/// luma byte of each triple, one per input element.
pub struct GreyscaleIter<Iter: RgbSource> {
    iter_: Iter,
}

impl<Iter: RgbSource> GreyscaleIter<Iter> {
    pub closed spec fn wf(&self) -> bool {
        self.iter_.wf()
    }

    /// The triples still to be converted.
    pub closed spec fn remaining(&self) -> Seq<(u8, u8, u8)> {
        self.iter_.remaining()
    }

    pub fn new(iter: Iter) -> (it: Self)
        ensures
            it.wf() == iter.wf(),
            it.remaining() == iter.remaining(),
    {
        Self { iter_: iter }
    }

    /// Yields the greyscale byte of the next triple, or `None` once the
    /// underlying source is exhausted.
    pub fn next(&mut self) -> (l: Option<u8>)
        requires
            old(self).wf(),
        ensures
            final(self).wf(),
            old(self).remaining().len() > 0 ==> {
                let t = old(self).remaining()[0];
                l == Some(luma_of(t.0, t.1, t.2)) && final(self).remaining() == old(
                    self,
                ).remaining().drop_first()
            },
            old(self).remaining().len() == 0 ==> l is None && final(self).remaining() == old(
                self,
            ).remaining(),
    {
        match self.iter_.next_triple() {
            Some((r, g, b)) => Some(luma(r, g, b)),
            None => None,
        }
    }

    /// The exact number of bytes still to come, in the shape of
    /// `Iterator::size_hint`.
    pub fn size_hint(&self) -> (s: (usize, Option<usize>))
        requires
            self.wf(),
        ensures
            s.0 == self.remaining().len(),
            s.1 == Some(s.0),
    {
        self.iter_.size_hint()
    }
}

/// Anything that yields RGB triples can be turned into a greyscale pipeline.
pub trait Greyscale: RgbSource {
    /// Wraps the source in a `GreyscaleIter`.
    fn greyscale(self) -> (it: GreyscaleIter<Self>)
        ensures
            it.wf() == self.wf(),
            it.remaining() == self.remaining(),
    {
        GreyscaleIter::new(self)
    }
}

impl<Iter: RgbSource> Greyscale for Iter {
}

/// Zip exhaustion: over three channels of `n` bytes each, the zip sequence
/// holds exactly `n` triples, and the triple at position `i` is
/// `(r[i], g[i], b[i])`. Together with `RgbImg::iter`, whose result has this
/// sequence as its remaining triples, and `next_triple`, which yields that
/// sequence element by element, an image with `n` pixels yields exactly `n`
/// triples.
pub proof fn lemma_zip_exhaustion(r: Seq<u8>, g: Seq<u8>, b: Seq<u8>)
    requires
        g.len() == r.len(),
        b.len() == r.len(),
    ensures
        triples_of(r, g, b).len() == r.len(),
        forall|i: int| 0 <= i < r.len() ==> triples_of(r, g, b)[i] == (r[i], g[i], b[i]),
{
}

} // verus!
