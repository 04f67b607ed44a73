use vstd::prelude::*;

verus! {

/// One pixel: red, green and blue, eight bits each.
#[derive(Clone, Copy, Debug, PartialEq, Eq, Structural)]
pub struct Rgb {
    pub r: u8,
    pub g: u8,
    pub b: u8,
}

impl Rgb {
    /// The pixel of the given channels.
    pub fn new(r: u8, g: u8, b: u8) -> (p: Rgb)
        ensures
            p == (Rgb { r, g, b }),
    {
        Rgb { r, g, b }
    }

    /// The gray pixel whose three channels are all `v`.
    pub open spec fn spec_gray(v: u8) -> Rgb {
        Rgb { r: v, g: v, b: v }
    }

    /// The gray pixel whose three channels are all `v`.
    #[verifier::when_used_as_spec(spec_gray)]
    pub fn gray(v: u8) -> (p: Rgb)
        ensures
            p == Rgb::spec_gray(v),
    {
        Rgb { r: v, g: v, b: v }
    }
}

/// The image that a `PixelBuffer` stands for: its dimensions and its pixels
/// in row-major order.
#[verifier::ext_equal]
pub struct Image {
    pub width: nat,
    pub height: nat,
    pub pixels: Seq<Rgb>,
}

impl Image {
    /// There is exactly one pixel for each cell.
    pub open spec fn wf(self) -> bool {
        self.pixels.len() == self.width * self.height
    }

    /// The pixel in row `row` and column `col`.
    pub open spec fn at(self, row: int, col: int) -> Rgb {
        self.pixels[row * self.width + col]
    }

    /// The image has no pixel at all.
    pub open spec fn is_empty(self) -> bool {
        self.width == 0 || self.height == 0
    }
}

/// An image held as a flat, row-major vector of pixels. Every value of this
/// type has `width * height` pixels.
#[derive(Debug, PartialEq, Eq)]
pub struct PixelBuffer {
    width: usize,
    height: usize,
    pixels: Vec<Rgb>,
}

impl View for PixelBuffer {
    type V = Image;

    closed spec fn view(&self) -> Image {
        Image { width: self.width as nat, height: self.height as nat, pixels: self.pixels@ }
    }
}

impl Clone for PixelBuffer {
    fn clone(&self) -> (copy: PixelBuffer)
        ensures
            copy@ == self@,
    {
        proof {
            use_type_invariant(self);
        }
        let pixels = self.pixels.clone();
        assert(pixels@ =~= self.pixels@);
        PixelBuffer { width: self.width, height: self.height, pixels }
    }
}

impl PixelBuffer {
    #[verifier::type_invariant]
    spec fn inv(self) -> bool {
        self.pixels@.len() == self.width * self.height
    }

    /// Makes a buffer of the given dimensions from its pixels in row-major
    /// order. There must be one pixel for each cell.
    pub fn new(width: usize, height: usize, pixels: Vec<Rgb>) -> (buf: PixelBuffer)
        requires
            pixels@.len() == width * height,
        ensures
            buf@ == (Image { width: width as nat, height: height as nat, pixels: pixels@ }),
    {
        PixelBuffer { width, height, pixels }
    }

    /// Like `new`, but tests the number of pixels and gives `None` where it
    /// is not `width * height`.
    pub fn checked(width: usize, height: usize, pixels: Vec<Rgb>) -> (res: Option<PixelBuffer>)
        ensures
            res is Some <==> pixels@.len() == width * height,
            res matches Some(buf) ==> buf@ == (Image {
                width: width as nat,
                height: height as nat,
                pixels: pixels@,
            }),
    {
        match width.checked_mul(height) {
            Some(n) => {
                if n == pixels.len() {
                    Some(PixelBuffer { width, height, pixels })
                } else {
                    None
                }
            },
            None => {
                assert(pixels.len() <= usize::MAX);
                None
            },
        }
    }

    /// The number of columns.
    pub fn width(&self) -> (w: usize)
        ensures
            w == self@.width,
            self@.wf(),
    {
        proof {
            use_type_invariant(self);
        }
        self.width
    }

    /// The number of rows.
    pub fn height(&self) -> (h: usize)
        ensures
            h == self@.height,
            self@.wf(),
    {
        proof {
            use_type_invariant(self);
        }
        self.height
    }

    /// The pixels in row-major order.
    pub fn pixels(&self) -> (p: &Vec<Rgb>)
        ensures
            p@ == self@.pixels,
            self@.wf(),
    {
        proof {
            use_type_invariant(self);
        }
        &self.pixels
    }

    /// Whether the buffer has no pixel at all, so that there is nothing to
    /// show.
    pub fn is_empty(&self) -> (e: bool)
        ensures
            e == self@.is_empty(),
            e == (self@.pixels.len() == 0),
            self@.wf(),
    {
        proof {
            use_type_invariant(self);
            assert(self.width == 0 || self.height == 0 <==> self.width * self.height == 0)
                by (nonlinear_arith);
        }
        self.width == 0 || self.height == 0
    }

    /// The pixel in row `row` and column `col`.
    pub fn pixel(&self, row: usize, col: usize) -> (p: Rgb)
        requires
            row < self@.height,
            col < self@.width,
        ensures
            p == self@.at(row as int, col as int),
    {
        proof {
            use_type_invariant(self);
            lemma_cell_index(self.width as int, self.height as int, row as int, col as int);
            assert(self.pixels.len() <= usize::MAX);
        }
        self.pixels[row * self.width + col]
    }
}

/// In a grid of `width` by `height` cells, the row-major index of a cell
/// lies below `width * height`.
pub proof fn lemma_cell_index(width: int, height: int, row: int, col: int)
    requires
        0 <= row < height,
        0 <= col < width,
    ensures
        0 <= row * width <= row * width + col < width * height,
{
    assert(0 <= row * width) by (nonlinear_arith)
        requires
            0 <= row,
            0 <= width,
    ;
    assert(row * width + width <= height * width) by (nonlinear_arith)
        requires
            row + 1 <= height,
            0 <= width,
    ;
    assert(height * width == width * height) by (nonlinear_arith);
}

} // verus!
