//! The planar image container and the packed/planar conversion algorithms.

use vstd::prelude::*;

use crate::channel::mv_as_slice;
use crate::channel::mv_new;
use crate::channel::mv_push;
use crate::channel::mv_seq;
use crate::channel::mv_with_capacity;

verus! {

/// The packed (interleaved) layout of three equal-length channels: for each
/// pixel `i`, the bytes `r[i], g[i], b[i]` stand at offsets `3i`, `3i + 1`,
/// `3i + 2`.
pub open spec fn packed_of(r: Seq<u8>, g: Seq<u8>, b: Seq<u8>) -> Seq<u8> {
    Seq::new(
        3 * r.len(),
        |i: int|
            if i % 3 == 0 {
                r[i / 3]
            } else if i % 3 == 1 {
                g[i / 3]
            } else {
                b[i / 3]
            },
    )
}

/// Channel `c` (0 red, 1 green, 2 blue) of a packed buffer: byte `3i + c` of
/// each 3-byte pixel group.
pub open spec fn channel_of(buf: Seq<u8>, c: int) -> Seq<u8> {
    Seq::new(buf.len() / 3, |i: int| buf[3 * i + c])
}

/// The one failure of the core: a packed buffer whose length is not
/// `3 * height * width`.
#[derive(Clone, Copy, Debug, PartialEq, Eq, Structural)]
pub enum RgbError {
    InvalidBufferLength,
}

/// An 8-bit RGB image in channel-major order: three independently owned
/// byte buffers of identical length, one per colour channel.
pub struct RgbImg {
    r: minivec::MiniVec<u8>,
    g: minivec::MiniVec<u8>,
    b: minivec::MiniVec<u8>,
    height: usize,
    width: usize,
}

impl RgbImg {
    /// The red channel, as the sequence of its bytes.
    pub closed spec fn red(&self) -> Seq<u8> {
        mv_seq(self.r)
    }

    /// The green channel, as the sequence of its bytes.
    pub closed spec fn green(&self) -> Seq<u8> {
        mv_seq(self.g)
    }

    /// The blue channel, as the sequence of its bytes.
    pub closed spec fn blue(&self) -> Seq<u8> {
        mv_seq(self.b)
    }

    pub closed spec fn spec_height(&self) -> int {
        self.height as int
    }

    pub closed spec fn spec_width(&self) -> int {
        self.width as int
    }

    /// The number of pixels, a derived quantity.
    pub open spec fn spec_total(&self) -> int {
        self.spec_height() * self.spec_width()
    }

    /// The container invariant: all three channels hold one byte per pixel,
    /// and the packed form of the image fits in memory.
    pub open spec fn wf(&self) -> bool {
        &&& self.red().len() == self.spec_total()
        &&& self.green().len() == self.spec_total()
        &&& self.blue().len() == self.spec_total()
        &&& 3 * self.spec_total() <= usize::MAX
    }

    /// An empty image: no pixels, height and width both `0`.
    pub fn new() -> (img: RgbImg)
        ensures
            img.wf(),
            img.spec_height() == 0,
            img.spec_width() == 0,
            img.red() == Seq::<u8>::empty(),
            img.green() == Seq::<u8>::empty(),
            img.blue() == Seq::<u8>::empty(),
    {
        RgbImg { r: mv_new(), g: mv_new(), b: mv_new(), height: 0, width: 0 }
    }

    /// Builds an image from a packed buffer, copying byte `3i + c` of `buf`
    /// into slot `i` of channel `c`. Succeeds exactly when the buffer holds
    /// three bytes per pixel of the given dimensions; any other length is
    /// rejected as `InvalidBufferLength`.
    pub fn from_packed_buf(buf: &[u8], height: usize, width: usize) -> (res: Result<
        RgbImg,
        RgbError,
    >)
        ensures
            res is Ok <==> buf@.len() == 3 * (height as int) * (width as int),
            res matches Ok(img) ==> {
                &&& img.wf()
                &&& img.spec_height() == height
                &&& img.spec_width() == width
                &&& img.red() == channel_of(buf@, 0)
                &&& img.green() == channel_of(buf@, 1)
                &&& img.blue() == channel_of(buf@, 2)
            },
            res is Err ==> res == Err::<RgbImg, RgbError>(RgbError::InvalidBufferLength),
    {
        let len = buf.len();
        proof {
            assert(3 * (height as int) * (width as int) == 3 * ((height as int) * (width as int)))
                by (nonlinear_arith);
            assert((height as int) * (width as int) >= 0) by (nonlinear_arith);
            assert((((height as int) * (width as int)) * 3) % 3 == 0) by {
                vstd::arithmetic::div_mod::lemma_mod_multiples_basic(
                    (height as int) * (width as int),
                    3,
                );
            }
            vstd::arithmetic::div_mod::lemma_fundamental_div_mod(len as int, 3);
        }
        if len % 3 != 0 {
            // a packed buffer always has a multiple of three bytes
            return Err(RgbError::InvalidBufferLength);
        }
        let total = len / 3;
        let hw = match height.checked_mul(width) {
            Some(hw) => hw,
            None => {
                // the pixel count exceeds usize::MAX, so no buffer can hold it
                return Err(RgbError::InvalidBufferLength);
            },
        };
        if hw != total {
            return Err(RgbError::InvalidBufferLength);
        }
        let mut rch = mv_with_capacity(total);
        let mut gch = mv_with_capacity(total);
        let mut bch = mv_with_capacity(total);
        let mut i: usize = 0;
        while i < total
            invariant
                i <= total,
                buf@.len() == 3 * total,
                3 * total <= usize::MAX,
                total < usize::MAX / 2,
                mv_seq(rch).len() == i,
                mv_seq(gch).len() == i,
                mv_seq(bch).len() == i,
                forall|j: int| 0 <= j < i ==> mv_seq(rch)[j] == buf@[3 * j],
                forall|j: int| 0 <= j < i ==> mv_seq(gch)[j] == buf@[3 * j + 1],
                forall|j: int| 0 <= j < i ==> mv_seq(bch)[j] == buf@[3 * j + 2],
            decreases total - i,
        {
            mv_push(&mut rch, buf[3 * i]);
            mv_push(&mut gch, buf[3 * i + 1]);
            mv_push(&mut bch, buf[3 * i + 2]);
            i = i + 1;
        }
        let img = RgbImg { r: rch, g: gch, b: bch, height, width };
        proof {
            assert(img.red() =~= channel_of(buf@, 0));
            assert(img.green() =~= channel_of(buf@, 1));
            assert(img.blue() =~= channel_of(buf@, 2));
        }
        Ok(img)
    }

    /// Writes the image back into a freshly allocated packed buffer: for each
    /// pixel `i`, red at offset `3i`, green at `3i + 1`, blue at `3i + 2`.
    pub fn to_packed_buf(&self) -> (out: Vec<u8>)
        requires
            self.wf(),
        ensures
            out@ == packed_of(self.red(), self.green(), self.blue()),
            out@.len() == 3 * self.spec_total(),
    {
        let r = mv_as_slice(&self.r);
        let g = mv_as_slice(&self.g);
        let b = mv_as_slice(&self.b);
        let total = r.len();
        let mut out: Vec<u8> = Vec::with_capacity(3 * total);
        let mut i: usize = 0;
        while i < total
            invariant
                i <= total,
                self.wf(),
                r@ == self.red(),
                g@ == self.green(),
                b@ == self.blue(),
                total == self.spec_total(),
                out@.len() == 3 * i,
                forall|j: int| 0 <= j < i ==> out@[3 * j] == self.red()[j],
                forall|j: int| 0 <= j < i ==> out@[3 * j + 1] == self.green()[j],
                forall|j: int| 0 <= j < i ==> out@[3 * j + 2] == self.blue()[j],
            decreases total - i,
        {
            out.push(r[i]);
            out.push(g[i]);
            out.push(b[i]);
            i = i + 1;
        }
        proof {
            assert forall|k: int| 0 <= k < 3 * total implies out@[k] == packed_of(
                self.red(),
                self.green(),
                self.blue(),
            )[k] by {
                vstd::arithmetic::div_mod::lemma_fundamental_div_mod(k, 3);
            }
            assert(out@ =~= packed_of(self.red(), self.green(), self.blue()));
        }
        out
    }

    /// A read-only view of the red channel.
    pub fn r(&self) -> (s: &[u8])
        ensures
            s@ == self.red(),
    {
        mv_as_slice(&self.r)
    }

    /// A read-only view of the green channel.
    pub fn g(&self) -> (s: &[u8])
        ensures
            s@ == self.green(),
    {
        mv_as_slice(&self.g)
    }

    /// A read-only view of the blue channel.
    pub fn b(&self) -> (s: &[u8])
        ensures
            s@ == self.blue(),
    {
        mv_as_slice(&self.b)
    }

    /// The number of rows of the image.
    pub fn height(&self) -> (h: usize)
        ensures
            h == self.spec_height(),
    {
        self.height
    }

    /// The number of columns of the image.
    pub fn width(&self) -> (w: usize)
        ensures
            w == self.spec_width(),
    {
        self.width
    }

    /// The number of pixels of the image: `height() * width()`.
    pub fn total(&self) -> (t: usize)
        requires
            self.wf(),
        ensures
            t == self.spec_total(),
            t == self.spec_height() * self.spec_width(),
    {
        self.height * self.width
    }
}

/// Dimension consistency: every well-formed image has `total` equal to
/// `height * width`, and all three channels hold exactly one byte per pixel.
pub proof fn lemma_dimension_consistency(img: &RgbImg)
    requires
        img.wf(),
    ensures
        img.spec_total() == img.spec_height() * img.spec_width(),
        img.red().len() == img.spec_total(),
        img.green().len() == img.spec_total(),
        img.blue().len() == img.spec_total(),
{
}

/// Round trip, packed side: splitting a packed buffer into its three channels
/// and interleaving them again gives the buffer back, byte for byte.
pub proof fn lemma_packed_round_trip(buf: Seq<u8>)
    requires
        buf.len() % 3 == 0,
    ensures
        packed_of(channel_of(buf, 0), channel_of(buf, 1), channel_of(buf, 2)) == buf,
{
    let r = channel_of(buf, 0);
    let g = channel_of(buf, 1);
    let b = channel_of(buf, 2);
    vstd::arithmetic::div_mod::lemma_fundamental_div_mod(buf.len() as int, 3);
    assert forall|k: int| 0 <= k < buf.len() implies packed_of(r, g, b)[k] == buf[k] by {
        vstd::arithmetic::div_mod::lemma_fundamental_div_mod(k, 3);
    }
    assert(packed_of(r, g, b) =~= buf);
}

/// Round trip, planar side: interleaving three equal-length channels and
/// splitting the result again reproduces each channel exactly.
pub proof fn lemma_channels_round_trip(r: Seq<u8>, g: Seq<u8>, b: Seq<u8>)
    requires
        g.len() == r.len(),
        b.len() == r.len(),
    ensures
        channel_of(packed_of(r, g, b), 0) == r,
        channel_of(packed_of(r, g, b), 1) == g,
        channel_of(packed_of(r, g, b), 2) == b,
{
    let p = packed_of(r, g, b);
    assert(p.len() == 3 * r.len());
    assert forall|i: int| 0 <= i < r.len() implies p[3 * i] == r[i] && p[3 * i + 1] == g[i] && p[3
        * i + 2] == b[i] by {
        vstd::arithmetic::div_mod::lemma_fundamental_div_mod(3 * i, 3);
        vstd::arithmetic::div_mod::lemma_fundamental_div_mod(3 * i + 1, 3);
        vstd::arithmetic::div_mod::lemma_fundamental_div_mod(3 * i + 2, 3);
    }
    assert(channel_of(p, 0) =~= r);
    assert(channel_of(p, 1) =~= g);
    assert(channel_of(p, 2) =~= b);
}

} // verus!
