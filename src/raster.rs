//! Owned RGBA rasters, the pixel data that flows through the pipeline.
use vstd::prelude::*;

verus! {

/// An RGBA image: `width * height` pixels of four bytes each, row-major.
#[derive(Debug)]
pub struct Raster {
    width: u32,
    height: u32,
    rgba: Vec<u8>,
}

/// Number of bytes an RGBA raster of the given size holds.
pub open spec fn rgba_len(width: u32, height: u32) -> int {
    4 * (width as int) * (height as int)
}

/// Two rasters of the same size holding the same bytes.
pub open spec fn same_raster(a: Raster, b: Raster) -> bool {
    &&& a.spec_width() == b.spec_width()
    &&& a.spec_height() == b.spec_height()
    &&& a.bytes() == b.bytes()
}

impl Raster {
    /// The byte buffer holds exactly four bytes per pixel.
    #[verifier::type_invariant]
    pub open spec fn wf(&self) -> bool {
        self.bytes().len() == rgba_len(self.spec_width(), self.spec_height())
    }

    pub closed spec fn spec_width(&self) -> u32 {
        self.width
    }

    pub closed spec fn spec_height(&self) -> u32 {
        self.height
    }

    pub closed spec fn bytes(&self) -> Seq<u8> {
        self.rgba@
    }

    /// Wraps an RGBA buffer; `None` unless it holds exactly `4 * width * height` bytes.
    pub fn from_rgba(width: u32, height: u32, rgba: Vec<u8>) -> (r: Option<Raster>)
        ensures
            r is Some <==> rgba@.len() == rgba_len(width, height),
            r matches Some(raster) ==> raster.wf() && raster.spec_width() == width
                && raster.spec_height() == height && raster.bytes() == rgba@,
    {
        assert((width as int) * (height as int) <= u64::MAX) by (nonlinear_arith)
            requires
                width <= u32::MAX,
                height <= u32::MAX,
        ;
        let pixels: u64 = width as u64 * height as u64;
        assert(rgba_len(width, height) == 4 * pixels) by (nonlinear_arith)
            requires
                pixels == (width as int) * (height as int),
        ;
        let len = rgba.len();
        if len % 4 == 0 && (len / 4) as u64 == pixels {
            Some(Raster { width, height, rgba })
        } else {
            None
        }
    }

    /// A raster of one colour.
    pub fn filled(width: u32, height: u32, pixel: [u8; 4]) -> (r: Raster)
        requires
            rgba_len(width, height) <= usize::MAX,
        ensures
            r.wf(),
            r.spec_width() == width,
            r.spec_height() == height,
            forall|i: int|
                0 <= i < r.bytes().len() ==> #[trigger] r.bytes()[i] == pixel[i % 4],
    {
        assert((width as int) * (height as int) <= usize::MAX) by (nonlinear_arith)
            requires
                4 * (width as int) * (height as int) <= usize::MAX,
        ;
        let n: usize = (width as usize) * (height as usize);
        assert(4 * n == rgba_len(width, height)) by (nonlinear_arith)
            requires
                n == (width as int) * (height as int),
        ;
        let mut rgba: Vec<u8> = Vec::new();
        let mut i: usize = 0;
        while i < n
            invariant
                n == (width as int) * (height as int),
                4 * n <= usize::MAX,
                i <= n,
                rgba@.len() == 4 * i,
                forall|j: int| 0 <= j < rgba@.len() ==> #[trigger] rgba@[j] == pixel[j % 4],
            decreases n - i,
        {
            let mut c: usize = 0;
            while c < 4
                invariant
                    i < n,
                    4 * n <= usize::MAX,
                    c <= 4,
                    rgba@.len() == 4 * i + c,
                    forall|j: int| 0 <= j < rgba@.len() ==> #[trigger] rgba@[j] == pixel[j % 4],
                decreases 4 - c,
            {
                assert((4 * i + c) % 4 == c as int);
                rgba.push(pixel[c]);
                c = c + 1;
            }
            i = i + 1;
        }
        assert(4 * n == rgba_len(width, height)) by (nonlinear_arith)
            requires
                n == (width as int) * (height as int),
        ;
        Raster { width, height, rgba }
    }

    /// An independent copy holding the same pixels.
    pub fn copied(&self) -> (r: Raster)
        ensures
            same_raster(r, *self),
    {
        proof {
            use_type_invariant(self);
        }
        Raster { width: self.width, height: self.height, rgba: self.rgba.clone() }
    }

    pub fn width(&self) -> (r: u32)
        ensures
            r == self.spec_width(),
    {
        self.width
    }

    pub fn height(&self) -> (r: u32)
        ensures
            r == self.spec_height(),
    {
        self.height
    }

    /// The RGBA bytes, row-major.
    pub fn as_bytes(&self) -> (r: &Vec<u8>)
        ensures
            r@ == self.bytes(),
    {
        &self.rgba
    }
}

} // verus!
