//! Grayscale textures, such as a glyph atlas for drawing text.
use vstd::prelude::*;

verus! {

/// 2D grayscale texture, stored row by row.
#[derive(Clone, Debug)]
pub struct Texture {
    width: usize,
    height: usize,
    pixels: Vec<u8>,
}

impl Texture {
    /// Width in pixels.
    pub closed spec fn width_spec(&self) -> nat {
        self.width as nat
    }

    /// Height in pixels.
    pub closed spec fn height_spec(&self) -> nat {
        self.height as nat
    }

    /// The pixels, row by row.
    pub closed spec fn pixels_spec(&self) -> Seq<u8> {
        self.pixels@
    }

    /// One pixel for each position.
    pub open spec fn wf(&self) -> bool {
        self.pixels_spec().len() == self.width_spec() * self.height_spec()
    }

    /// A black texture of the given width and height.
    pub fn new(width: usize, height: usize) -> (r: Texture)
        requires
            width * height <= usize::MAX,
        ensures
            r.wf(),
            r.width_spec() == width,
            r.height_spec() == height,
            r.pixels_spec() == Seq::new((width * height) as nat, |i: int| 0u8),
    {
        let n = width * height;
        let mut pixels: Vec<u8> = Vec::with_capacity(n);
        let mut i: usize = 0;
        while i < n
            invariant
                i <= n,
                pixels@ == Seq::new(i as nat, |j: int| 0u8),
            decreases n - i,
        {
            pixels.push(0u8);
            i = i + 1;
            assert(pixels@ =~= Seq::new(i as nat, |j: int| 0u8));
        }
        Texture { width, height, pixels }
    }

    /// Width and height, each cut to 32 bits.
    pub fn dimensions(&self) -> (r: (u32, u32))
        ensures
            r == (self.width_spec() as u32, self.height_spec() as u32),
    {
        (#[verifier::truncate] (self.width as u32), #[verifier::truncate] (self.height as u32))
    }

    /// The pixels, row by row.
    pub fn pixels(&self) -> (r: &[u8])
        ensures
            r@ == self.pixels_spec(),
    {
        self.pixels.as_slice()
    }

    /// The pixel at column `x` of row `y`.
    pub fn pixel(&self, x: u32, y: u32) -> (r: u8)
        requires
            self.wf(),
            y as int * self.width_spec() + x < self.pixels_spec().len(),
        ensures
            r == self.pixels_spec()[y as int * self.width_spec() + x],
    {
        let len = self.pixels.len();
        proof { lemma_offset_fits(self.width_spec(), y as nat, x as nat, len as nat); }
        self.pixels[y as usize * self.width + x as usize]
    }

    /// Set the pixel at column `x` of row `y`.
    pub fn set_pixel(&mut self, x: u32, y: u32, value: u8)
        requires
            old(self).wf(),
            y as int * old(self).width_spec() + x < old(self).pixels_spec().len(),
        ensures
            final(self).wf(),
            final(self).width_spec() == old(self).width_spec(),
            final(self).height_spec() == old(self).height_spec(),
            final(self).pixels_spec() == old(self).pixels_spec().update(
                y as int * old(self).width_spec() + x,
                value,
            ),
    {
        let len = self.pixels.len();
        proof { lemma_offset_fits(self.width_spec(), y as nat, x as nat, len as nat); }
        let i = y as usize * self.width + x as usize;
        self.pixels.set(i, value);
    }
}

proof fn lemma_offset_fits(w: nat, y: nat, x: nat, len: nat)
    requires
        y * w + x < len,
        len <= usize::MAX,
    ensures
        y * w <= usize::MAX,
        y * w + x <= usize::MAX,
{
}

} // verus!
