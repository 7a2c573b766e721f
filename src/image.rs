use vstd::prelude::*;

verus! {

/// One output pixel: three 8-bit intensities, red, green and blue.
#[derive(Clone, Copy, Debug, PartialEq, Eq, Structural)]
pub struct Rgb8 {
    pub r: u8,
    pub g: u8,
    pub b: u8,
}

impl Rgb8 {
    pub fn new(r: u8, g: u8, b: u8) -> (c: Rgb8)
        ensures
            c == (Rgb8 { r, g, b }),
    {
        Rgb8 { r, g, b }
    }

    pub fn black() -> (c: Rgb8)
        ensures
            c == (Rgb8 { r: 0, g: 0, b: 0 }),
    {
        Rgb8 { r: 0, g: 0, b: 0 }
    }
}

/// Row-major position of pixel `(x, y)` in a grid `width` pixels wide.
pub open spec fn cell(width: nat, x: nat, y: nat) -> nat {
    y * width + x
}

/// Every pixel of a `width` x `height` grid, row by row from the top-left:
/// entry `i` is `(i % width, i / width)`.
pub fn pixel_coords(width: u64, height: u64) -> (r: Vec<(u64, u64)>)
    requires
        width * height <= usize::MAX,
    ensures
        r@.len() == width * height,
        forall|i: int|
            0 <= i < r@.len() ==> (#[trigger] r@[i]).0 == i % width as int && r@[i].1 == i / width as int,
{
    let mut r: Vec<(u64, u64)> = Vec::new();
    let mut y: u64 = 0;
    while y < height
        invariant
            y <= height,
            width * height <= usize::MAX,
            r@.len() == width * y,
            forall|i: int|
                0 <= i < r@.len() ==> (#[trigger] r@[i]).0 == i % width as int && r@[i].1 == i / width as int,
        decreases height - y,
    {
        let mut x: u64 = 0;
        while x < width
            invariant
                y < height,
                x <= width,
                width * height <= usize::MAX,
                r@.len() == width * y + x,
                forall|i: int|
                    0 <= i < r@.len() ==> (#[trigger] r@[i]).0 == i % width as int && r@[i].1 == i / width as int,
            decreases width - x,
        {
            proof {
                let i = (width * y + x) as int;
                assert(i % width as int == x as int && i / width as int == y as int) by (nonlinear_arith)
                    requires
                        i == width * y + x,
                        x < width,
                        width > 0,
                ;
            }
            r.push((x, y));
            x = x + 1;
        }
        proof {
            assert(width * (y + 1) == width * y + width) by (nonlinear_arith);
        }
        y = y + 1;
    }
    r
}

/// A `width` x `height` grid of output pixels, stored row by row from the
/// top-left.
pub struct Image {
    width: u64,
    height: u64,
    pixels: Vec<Rgb8>,
}

impl Image {
    pub closed spec fn width_spec(&self) -> nat {
        self.width as nat
    }

    pub closed spec fn height_spec(&self) -> nat {
        self.height as nat
    }

    /// The pixels in row-major order.
    pub closed spec fn pixels_spec(&self) -> Seq<Rgb8> {
        self.pixels@
    }

    /// The grid holds exactly one pixel per cell.
    pub open spec fn wf(&self) -> bool {
        self.pixels_spec().len() == self.width_spec() * self.height_spec()
    }

    pub open spec fn pixel_spec(&self, x: nat, y: nat) -> Rgb8 {
        self.pixels_spec()[cell(self.width_spec(), x, y) as int]
    }

    /// An all-black grid of the given size.
    pub fn new(width: u64, height: u64) -> (img: Image)
        requires
            width * height <= usize::MAX,
        ensures
            img.wf(),
            img.width_spec() == width,
            img.height_spec() == height,
            forall|i: int| 0 <= i < img.pixels_spec().len() ==> #[trigger] img.pixels_spec()[i] == (Rgb8 { r: 0, g: 0, b: 0 }),
    {
        let n = (width * height) as usize;
        let mut pixels: Vec<Rgb8> = Vec::new();
        let mut i: usize = 0;
        while i < n
            invariant
                i <= n,
                pixels@.len() == i,
                forall|k: int| 0 <= k < i ==> #[trigger] pixels@[k] == (Rgb8 { r: 0, g: 0, b: 0 }),
            decreases n - i,
        {
            pixels.push(Rgb8::black());
            i = i + 1;
        }
        Image { width, height, pixels }
    }

    /// A grid over the given row-major pixels; `None` when their number is not
    /// `width * height`.
    pub fn from_pixels(width: u64, height: u64, pixels: Vec<Rgb8>) -> (r: Option<Image>)
        ensures
            r is Some <==> pixels@.len() == width * height,
            r matches Some(img) ==> img.wf() && img.width_spec() == width && img.height_spec()
                == height && img.pixels_spec() == pixels@,
    {
        if width.checked_mul(height) == Some(pixels.len() as u64) {
            Some(Image { width, height, pixels })
        } else {
            None
        }
    }

    pub fn width(&self) -> (r: u64)
        ensures
            r == self.width_spec(),
    {
        self.width
    }

    pub fn height(&self) -> (r: u64)
        ensures
            r == self.height_spec(),
    {
        self.height
    }

    /// The pixels in row-major order.
    pub fn pixels(&self) -> (r: &Vec<Rgb8>)
        ensures
            r@ == self.pixels_spec(),
    {
        &self.pixels
    }

    pub fn get(&self, x: u64, y: u64) -> (c: Rgb8)
        requires
            self.wf(),
            x < self.width_spec(),
            y < self.height_spec(),
        ensures
            c == self.pixel_spec(x as nat, y as nat),
    {
        proof {
            lemma_cell_in_grid(self.width_spec(), self.height_spec(), x as nat, y as nat);
        }
        let len = self.pixels.len();
        assert(y * self.width + x < len);
        self.pixels[(y * self.width + x) as usize]
    }

    /// Writes pixel `(x, y)` and no other.
    pub fn set(&mut self, x: u64, y: u64, c: Rgb8)
        requires
            old(self).wf(),
            x < old(self).width_spec(),
            y < old(self).height_spec(),
        ensures
            final(self).wf(),
            final(self).width_spec() == old(self).width_spec(),
            final(self).height_spec() == old(self).height_spec(),
            final(self).pixels_spec() == old(self).pixels_spec().update(
                cell(old(self).width_spec(), x as nat, y as nat) as int,
                c,
            ),
    {
        proof {
            lemma_cell_in_grid(self.width_spec(), self.height_spec(), x as nat, y as nat);
        }
        let len = self.pixels.len();
        assert(y * self.width + x < len);
        let i = (y * self.width + x) as usize;
        self.pixels.set(i, c);
    }
}

/// A cell of a pixel inside the grid lies inside the grid.
pub proof fn lemma_cell_in_grid(width: nat, height: nat, x: nat, y: nat)
    requires
        x < width,
        y < height,
    ensures
        cell(width, x, y) < width * height,
{
    assert(y * width + x < width * height) by (nonlinear_arith)
        requires
            x < width,
            y < height,
    ;
}

/// Distinct entries of the row-major pixel enumeration land in distinct cells
/// of the grid: entry `i` is written to cell `i`, so a render that writes one
/// pixel per entry writes every cell exactly once.
pub proof fn lemma_coords_cells(width: nat, height: nat, i: nat)
    requires
        width > 0,
        i < width * height,
    ensures
        cell(width, i % width, i / width) == i,
        i % width < width,
        i / width < height,
{
    assert(i == (i / width) * width + i % width) by (nonlinear_arith)
        requires
            width > 0,
    ;
    assert(i / width < height) by (nonlinear_arith)
        requires
            width > 0,
            i < width * height,
    ;
}

} // verus!
