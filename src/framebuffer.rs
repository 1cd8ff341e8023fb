use vstd::prelude::*;

verus! {

/// Position in the row-major pixel sequence of the pixel in column `i`,
/// row `j` (row 0 is the top of the image).
pub open spec fn index_of(width: int, i: int, j: int) -> int {
    j * width + i
}

/// Index into a row-major image of `width` columns of the pixel in column
/// `i`, row `j`.
pub fn pixel_index(width: usize, i: usize, j: usize) -> (r: usize)
    requires
        i < width,
        j * width + i <= usize::MAX,
    ensures
        r == index_of(width as int, i as int, j as int),
{
    j * width + i
}

/// Column and row of the pixel stored at `index` in a row-major image of
/// `width` columns.
pub fn pixel_coords(width: usize, index: usize) -> (r: (usize, usize))
    requires
        width > 0,
    ensures
        r.0 == index % width,
        r.1 == index / width,
        r.0 < width,
        index_of(width as int, r.0 as int, r.1 as int) == index,
{
    proof {
        vstd::arithmetic::div_mod::lemma_fundamental_div_mod(index as int, width as int);
        vstd::arithmetic::mul::lemma_mul_is_commutative(width as int, (index / width) as int);
    }
    (index % width, index / width)
}

/// Row-major indexing is a bijection between the cells of a `width`-column
/// grid and the naturals: coordinates go to an index and back unchanged, and
/// an index goes to coordinates and back unchanged.
pub proof fn lemma_index_round_trip(width: int, i: int, j: int, index: int)
    requires
        width > 0,
        0 <= i < width,
        0 <= j,
        0 <= index,
    ensures
        index_of(width, i, j) % width == i,
        index_of(width, i, j) / width == j,
        index_of(width, index % width, index / width) == index,
{
    vstd::arithmetic::div_mod::lemma_fundamental_div_mod_converse(
        index_of(width, i, j),
        width,
        j,
        i,
    );
    vstd::arithmetic::div_mod::lemma_fundamental_div_mod(index, width);
    vstd::arithmetic::mul::lemma_mul_is_commutative(width, index / width);
}

/// A width x height image under construction: the pixels computed so far,
/// in row-major order from the top-left corner.
pub struct Framebuffer<T> {
    width: usize,
    height: usize,
    pixels: Vec<T>,
}

impl<T> View for Framebuffer<T> {
    type V = Seq<T>;

    closed spec fn view(&self) -> Seq<T> {
        self.pixels@
    }
}

impl<T> Framebuffer<T> {
    /// The stored pixels never outnumber the cells of the image, whose count
    /// fits in `usize`.
    pub closed spec fn wf(&self) -> bool {
        &&& self.width * self.height <= usize::MAX
        &&& self.pixels@.len() <= self.width * self.height
    }

    pub closed spec fn spec_width(&self) -> usize {
        self.width
    }

    pub closed spec fn spec_height(&self) -> usize {
        self.height
    }

    /// Number of pixels of the finished image.
    pub open spec fn size(&self) -> int {
        self.spec_width() * self.spec_height()
    }

    /// Every pixel has been computed.
    pub open spec fn complete(&self) -> bool {
        self@.len() == self.size()
    }

    /// An empty image of the given dimensions.
    pub fn new(width: usize, height: usize) -> (r: Self)
        requires
            width * height <= usize::MAX,
        ensures
            r.wf(),
            r.spec_width() == width,
            r.spec_height() == height,
            r@ == Seq::<T>::empty(),
    {
        Framebuffer { width, height, pixels: Vec::new() }
    }

    #[verifier::when_used_as_spec(spec_width)]
    pub fn width(&self) -> (r: usize)
        ensures
            r == self.spec_width(),
    {
        self.width
    }

    #[verifier::when_used_as_spec(spec_height)]
    pub fn height(&self) -> (r: usize)
        ensures
            r == self.spec_height(),
    {
        self.height
    }

    /// Number of pixels computed so far.
    pub fn len(&self) -> (r: usize)
        ensures
            r == self@.len(),
    {
        self.pixels.len()
    }

    pub fn is_complete(&self) -> (r: bool)
        requires
            self.wf(),
        ensures
            r == self.complete(),
    {
        self.pixels.len() == self.width * self.height
    }

    /// The pixels in row-major order.
    pub fn pixels(&self) -> (r: &Vec<T>)
        ensures
            r@ == self@,
    {
        &self.pixels
    }

    /// Column and row of the next pixel to compute, or `None` once the
    /// image is complete. Pixels come row by row from the top, and left to
    /// right within a row.
    pub fn next_pixel(&self) -> (r: Option<(usize, usize)>)
        requires
            self.wf(),
        ensures
            r is None <==> self.complete(),
            r matches Some((i, j)) ==> {
                &&& i < self.width()
                &&& j < self.height()
                &&& index_of(self.width() as int, i as int, j as int) == self@.len()
            },
    {
        let n = self.pixels.len();
        if n == self.width * self.height {
            None
        } else {
            proof {
                let w = self.width as int;
                let h = self.height as int;
                assert(w > 0) by (nonlinear_arith)
                    requires
                        0 <= n < w * h,
                        w >= 0,
                        h >= 0,
                ;
            }
            let (i, j) = pixel_coords(self.width, n);
            proof {
                let w = self.width as int;
                let h = self.height as int;
                assert(j < h) by (nonlinear_arith)
                    requires
                        j * w + i == n,
                        n < w * h,
                        0 <= i,
                        0 <= j,
                        w > 0,
                ;
            }
            Some((i, j))
        }
    }

    /// Stores the next pixel, the one that `next_pixel` names.
    pub fn push(&mut self, value: T)
        requires
            old(self).wf(),
            !old(self).complete(),
        ensures
            final(self).wf(),
            final(self)@ == old(self)@.push(value),
            final(self).width() == old(self).width(),
            final(self).height() == old(self).height(),
    {
        self.pixels.push(value);
    }

    /// The pixel in column `i`, row `j`.
    pub fn get(&self, i: usize, j: usize) -> (r: &T)
        requires
            self.wf(),
            i < self.width(),
            index_of(self.width() as int, i as int, j as int) < self@.len(),
        ensures
            *r == self@[index_of(self.width() as int, i as int, j as int)],
    {
        &self.pixels[j * self.width + i]
    }
}

} // verus!
