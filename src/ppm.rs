use vstd::prelude::*;
use crate::framebuffer::Framebuffer;

verus! {

/// A pixel encoded as three bytes: red, green, blue.
#[derive(Clone, Copy, Debug, PartialEq, Eq, Structural)]
pub struct Rgb {
    pub r: u8,
    pub g: u8,
    pub b: u8,
}

/// The ASCII decimal digits of `n`, most significant first, without leading zeros.
pub open spec fn decimal(n: nat) -> Seq<u8>
    decreases n,
{
    if n < 10 {
        seq![(48 + n) as u8]
    } else {
        decimal(n / 10) + seq![(48 + n % 10) as u8]
    }
}

/// The P6 header: `P6\n<width> <height>\n255\n`.
pub open spec fn header(width: nat, height: nat) -> Seq<u8> {
    seq![80u8, 54u8, 10u8] + decimal(width) + seq![32u8] + decimal(height) + seq![
        10u8,
        50u8,
        53u8,
        53u8,
        10u8,
    ]
}

/// The raw bytes of a pixel sequence: red, green and blue of each pixel in turn.
pub open spec fn pixel_bytes(pixels: Seq<Rgb>) -> Seq<u8>
    decreases pixels.len(),
{
    if pixels.len() == 0 {
        Seq::empty()
    } else {
        let p = pixels.last();
        pixel_bytes(pixels.drop_last()) + seq![p.r, p.g, p.b]
    }
}

/// Appends the decimal digits of `n` to `out`.
fn push_decimal(out: &mut Vec<u8>, n: usize)
    ensures
        final(out)@ == old(out)@ + decimal(n as nat),
    decreases n,
{
    if n >= 10 {
        push_decimal(out, n / 10);
    }
    out.push(48 + (n % 10) as u8);
    proof {
        assert(final(out)@ =~= old(out)@ + decimal(n as nat));
    }
}

/// The decimal representation of `n` as ASCII bytes.
pub fn decimal_bytes(n: usize) -> (r: Vec<u8>)
    ensures
        r@ == decimal(n as nat),
{
    let mut out: Vec<u8> = Vec::new();
    push_decimal(&mut out, n);
    assert(out@ =~= decimal(n as nat));
    out
}

/// The header of a binary PPM image of the given dimensions.
pub fn ppm_header(width: usize, height: usize) -> (r: Vec<u8>)
    ensures
        r@ == header(width as nat, height as nat),
{
    let mut out: Vec<u8> = Vec::new();
    out.push(80);
    out.push(54);
    out.push(10);
    push_decimal(&mut out, width);
    out.push(32);
    push_decimal(&mut out, height);
    out.push(10);
    out.push(50);
    out.push(53);
    out.push(53);
    out.push(10);
    assert(out@ =~= header(width as nat, height as nat));
    out
}

/// The complete binary PPM file of an image: the header, then three bytes per
/// pixel, row-major from the top-left corner. An image with pixels still
/// missing has no encoding.
pub fn encode_ppm(image: &Framebuffer<Rgb>) -> (r: Option<Vec<u8>>)
    requires
        image.wf(),
    ensures
        r is None <==> !image.complete(),
        r matches Some(bytes) ==> bytes@ == header(image.width() as nat, image.height() as nat)
            + pixel_bytes(image@),
{
    if !image.is_complete() {
        return None;
    }
    let mut out = ppm_header(image.width(), image.height());
    let pixels = image.pixels();
    let n = pixels.len();
    let mut k: usize = 0;
    while k < n
        invariant
            n == pixels@.len(),
            pixels@ == image@,
            k <= n,
            out@ == header(image.width() as nat, image.height() as nat) + pixel_bytes(
                pixels@.take(k as int),
            ),
        decreases n - k,
    {
        let p = pixels[k];
        out.push(p.r);
        out.push(p.g);
        out.push(p.b);
        proof {
            let next = pixels@.take(k + 1);
            assert(next.drop_last() =~= pixels@.take(k as int));
            assert(next.last() == p);
        }
        k = k + 1;
        proof {
            assert(out@ =~= header(image.width() as nat, image.height() as nat) + pixel_bytes(
                pixels@.take(k as int),
            ));
        }
    }
    assert(pixels@.take(n as int) =~= pixels@);
    Some(out)
}

} // verus!
