use vstd::prelude::*;

verus! {

/// A colour with alpha, one byte per channel.
#[derive(PartialEq, Eq, Debug, Clone, Copy, Structural)]
pub struct Pixel {
    pub red: u8,
    pub green: u8,
    pub blue: u8,
    pub alpha: u8,
}

/// The four channel bytes of a pixel in `RGBA` order.
pub open spec fn rgba(p: Pixel) -> Seq<u8> {
    seq![p.red, p.green, p.blue, p.alpha]
}

/// The channel bytes of `pixels`, one pixel after another.
pub open spec fn rgba_bytes(pixels: Seq<Pixel>) -> Seq<u8>
    decreases pixels.len(),
{
    if pixels.len() == 0 {
        Seq::empty()
    } else {
        rgba_bytes(pixels.drop_last()) + rgba(pixels.last())
    }
}

impl Pixel {
    pub fn new(red: u8, green: u8, blue: u8, alpha: u8) -> (r: Pixel)
        ensures
            r == (Pixel { red, green, blue, alpha }),
    {
        Pixel { red, green, blue, alpha }
    }

    /// Transparent black.
    pub fn empty() -> (r: Pixel)
        ensures
            r == (Pixel { red: 0, green: 0, blue: 0, alpha: 0 }),
    {
        Pixel::new(0, 0, 0, 0)
    }

    pub fn into_rgba(&self) -> (r: [u8; 4])
        ensures
            r@ == rgba(*self),
    {
        let r = [self.red, self.green, self.blue, self.alpha];
        assert(r@ =~= rgba(*self));
        r
    }

    /// The channel bytes of `pixels` in `RGBA` order, ready for a texture upload.
    pub fn into_texture(pixels: &[Pixel]) -> (r: Vec<u8>)
        ensures
            r@ == rgba_bytes(pixels@),
    {
        let mut r: Vec<u8> = Vec::new();
        let mut i: usize = 0;
        while i < pixels.len()
            invariant
                i <= pixels@.len(),
                r@ == rgba_bytes(pixels@.subrange(0, i as int)),
            decreases pixels@.len() - i,
        {
            let p = pixels[i];
            r.push(p.red);
            r.push(p.green);
            r.push(p.blue);
            r.push(p.alpha);
            proof {
                let s = pixels@.subrange(0, i + 1);
                assert(s.drop_last() =~= pixels@.subrange(0, i as int));
                assert(r@ =~= rgba_bytes(s));
            }
            i = i + 1;
        }
        assert(pixels@.subrange(0, pixels@.len() as int) =~= pixels@);
        r
    }
}

/// The colour of a two-bit pattern value.
pub open spec fn pattern_colour(v: u8) -> Pixel {
    if v == 0 {
        Pixel { red: 0, green: 0, blue: 0, alpha: 0 }
    } else if v == 1 {
        Pixel { red: 255, green: 0, blue: 0, alpha: 255 }
    } else if v == 2 {
        Pixel { red: 0, green: 255, blue: 0, alpha: 255 }
    } else {
        Pixel { red: 0, green: 0, blue: 255, alpha: 255 }
    }
}

pub fn colour(v: u8) -> (r: Pixel)
    ensures
        r == pattern_colour(v),
{
    if v == 0 {
        Pixel::empty()
    } else if v == 1 {
        Pixel::new(255, 0, 0, 255)
    } else if v == 2 {
        Pixel::new(0, 255, 0, 255)
    } else {
        Pixel::new(0, 0, 255, 255)
    }
}

/// Bit `7 - x` of `b`: pixels run from the most significant bit leftwards.
pub open spec fn plane_bit(b: u8, x: int) -> u8 {
    ((b >> ((7 - x) as u8)) & 1) as u8
}

/// Pixel (`x`, `y`) of tile `tile`. A tile is 16 bytes: two bit planes of eight bytes, one
/// byte per row of eight pixels, the leftmost pixel in the most significant bit. The first
/// plane gives the low bit of each pixel's value and the second the high bit.
pub open spec fn tile_colour(bytes: Seq<u8>, tile: int, x: int, y: int) -> Pixel {
    let lo = bytes[16 * tile + y];
    let hi = bytes[16 * tile + 8 + y];
    pattern_colour((plane_bit(lo, x) + 2 * plane_bit(hi, x)) as u8)
}

/// Pixel `p` of a `width`-wide image of 8 by 8 tiles laid out as a grid, `width / 8` tiles
/// to a row: pixel (`p % width`, `p / width`) belongs to tile
/// `(py / 8) * (width / 8) + px / 8`, at row `py % 8` and column `px % 8` of it. Pixels of
/// grid cells past the last tile are transparent.
pub open spec fn grid_pixel(bytes: Seq<u8>, width: int, p: int) -> Pixel {
    let px = p % width;
    let py = p / width;
    let tile = (py / 8) * (width / 8) + px / 8;
    if tile < bytes.len() / 16 {
        tile_colour(bytes, tile, px % 8, py % 8)
    } else {
        Pixel { red: 0, green: 0, blue: 0, alpha: 0 }
    }
}

/// A `width`-wide texture of `total` pixels decoded from the tiles in `bytes`.
pub open spec fn decoded_pixels(bytes: Seq<u8>, width: int, total: int) -> Seq<Pixel> {
    Seq::new(total as nat, |p: int| grid_pixel(bytes, width, p))
}

pub fn bit_of(b: u8, shift: u8) -> (r: u8)
    requires
        shift < 8,
    ensures
        r == (b >> shift) & 1,
        r <= 1,
{
    let r = (b >> shift) & 1;
    assert(r <= 1) by (bit_vector)
        requires r == (b >> shift) & 1, shift < 8;
    r
}

/// The character `render_ascii` draws for a pixel: `.` for transparent, `1` to `3` for the
/// three pattern colours, `?` for anything else.
pub open spec fn ascii_char(p: Pixel) -> char {
    if p == (Pixel { red: 0, green: 0, blue: 0, alpha: 0 }) {
        '.'
    } else if p == (Pixel { red: 255, green: 0, blue: 0, alpha: 255 }) {
        '1'
    } else if p == (Pixel { red: 0, green: 255, blue: 0, alpha: 255 }) {
        '2'
    } else if p == (Pixel { red: 0, green: 0, blue: 255, alpha: 255 }) {
        '3'
    } else {
        '?'
    }
}

/// What goes before pixel `i` of rows of `row` pixels: a line break between rows, a space
/// between groups of eight within a row.
pub open spec fn ascii_separator(i: int, row: int) -> Seq<char> {
    if i > 0 && i % row == 0 {
        seq!['\n']
    } else if i % row != 0 && (i % row) % 8 == 0 {
        seq![' ']
    } else {
        Seq::empty()
    }
}

/// The drawing of the first `n` pixels.
pub open spec fn ascii_prefix(pixels: Seq<Pixel>, row: int, n: int) -> Seq<char>
    decreases n,
{
    if n <= 0 {
        Seq::empty()
    } else {
        ascii_prefix(pixels, row, n - 1) + ascii_separator(n - 1, row) + seq![ascii_char(pixels[n - 1])]
    }
}

/// Relies on std's `String::push`: it appends the character.
#[verifier::external_body]
fn push_char(s: &mut String, c: char)
    ensures
        final(s)@ == old(s)@.push(c),
{
    s.push(c);
}

fn pixel_char(p: Pixel) -> (r: char)
    ensures
        r == ascii_char(p),
{
    if p.red == 0 && p.green == 0 && p.blue == 0 && p.alpha == 0 {
        '.'
    } else if p.red == 255 && p.green == 0 && p.blue == 0 && p.alpha == 255 {
        '1'
    } else if p.red == 0 && p.green == 255 && p.blue == 0 && p.alpha == 255 {
        '2'
    } else if p.red == 0 && p.green == 0 && p.blue == 255 && p.alpha == 255 {
        '3'
    } else {
        '?'
    }
}

/// A rectangular image, its pixels row by row.
#[derive(PartialEq, Eq, Debug, Clone)]
pub struct Texture {
    pub pixels: Vec<Pixel>,
    pub width: usize,
    pub height: usize,
}

proof fn lemma_grid_index(p: int, width: int)
    requires
        p >= 0,
        width >= 8,
    ensures
        0 <= (p / width / 8) * (width / 8) + (p % width) / 8 <= p,
{
    let q = p / width;
    let r = p % width;
    assert(p == width * q + r && 0 <= r < width && q >= 0) by (nonlinear_arith)
        requires p >= 0, width > 0, q == p / width, r == p % width;
    assert((q / 8) * (width / 8) <= q * (width / 8)) by (nonlinear_arith)
        requires q >= 0, width >= 8;
    assert(q * (width / 8) <= q * width) by (nonlinear_arith)
        requires q >= 0, width >= 8;
    assert(0 <= (q / 8) * (width / 8)) by (nonlinear_arith)
        requires q >= 0, width >= 8;
}

proof fn lemma_tile_in_bytes(tile: int, len: int, y: int)
    requires
        0 <= tile < len / 16,
        0 <= y < 8,
        len >= 0,
    ensures
        16 * tile + 8 + y < len,
{
    assert(16 * (tile + 1) <= 16 * (len / 16)) by (nonlinear_arith)
        requires 0 <= tile < len / 16;
}

impl Texture {
    /// A texture of the given size holding `pixels`.
    pub fn new(pixels: &[Pixel], width: usize, height: usize) -> (r: Texture)
        requires
            pixels@.len() == width * height,
        ensures
            r.pixels@ == pixels@,
            r.width == width,
            r.height == height,
    {
        let mut v: Vec<Pixel> = Vec::new();
        let mut i: usize = 0;
        while i < pixels.len()
            invariant
                i <= pixels@.len(),
                v@ == pixels@.subrange(0, i as int),
            decreases pixels@.len() - i,
        {
            v.push(pixels[i]);
            i = i + 1;
            assert(v@ =~= pixels@.subrange(0, i as int));
        }
        assert(pixels@.subrange(0, pixels@.len() as int) =~= pixels@);
        Texture { pixels: v, width, height }
    }

    /// Decodes bit-plane tiles (the pattern tables' format) into a `width` by `height`
    /// texture laid out as a grid of 8 by 8 tiles: see `grid_pixel`. Tiles are 16 bytes;
    /// `tile_length` must divide the input.
    pub fn from_bitplanes(bytes: &[u8], tile_length: usize, width: usize, height: usize) -> (r: Texture)
        requires
            tile_length > 0,
            tile_length % 2 == 0,
            (bytes@.len() as int) % (tile_length as int) == 0,
            width >= 8,
            width % 8 == 0,
            width * height <= usize::MAX,
        ensures
            r.pixels@ == decoded_pixels(bytes@, width as int, width * height),
            r.width == width,
            r.height == height,
    {
        let total = width * height;
        let len = bytes.len();
        let tiles = len / 16;
        let mut pixels: Vec<Pixel> = Vec::new();
        let mut p: usize = 0;
        while p < total
            invariant
                p <= total,
                total == width * height,
                tiles == bytes@.len() / 16,
                len == bytes@.len(),
                width >= 8,
                width % 8 == 0,
                pixels@ == decoded_pixels(bytes@, width as int, p as int),
            decreases total - p,
        {
            let px = p % width;
            let py = p / width;
            proof {
                lemma_grid_index(p as int, width as int);
                assert((py / 8) * (width / 8) <= p);
            }
            let tile = (py / 8) * (width / 8) + px / 8;
            let pixel = if tile < tiles {
                let x = px % 8;
                let y = py % 8;
                proof {
                    lemma_tile_in_bytes(tile as int, bytes@.len() as int, y as int);
                }
                let base = 16 * tile;
                let lo = bytes[base + y];
                let hi = bytes[base + 8 + y];
                let shift = (7 - x) as u8;
                colour(bit_of(lo, shift) + 2 * bit_of(hi, shift))
            } else {
                Pixel::empty()
            };
            pixels.push(pixel);
            p = p + 1;
            assert(pixels@ =~= decoded_pixels(bytes@, width as int, p as int));
        }
        Texture { pixels, width, height }
    }

    /// The pixels as text, rows of `height` pixels in groups of eight: see `ascii_prefix`.
    pub fn render_ascii(&self) -> (r: String)
        requires
            self.height > 0,
        ensures
            r@ == ascii_prefix(self.pixels@, self.height as int, self.pixels@.len() as int),
    {
        let mut text = String::new();
        let row = self.height;
        let mut i: usize = 0;
        while i < self.pixels.len()
            invariant
                i <= self.pixels@.len(),
                row == self.height,
                row > 0,
                text@ == ascii_prefix(self.pixels@, row as int, i as int),
            decreases self.pixels@.len() - i,
        {
            if i > 0 && i % row == 0 {
                push_char(&mut text, '\n');
            } else if i % row != 0 && (i % row) % 8 == 0 {
                push_char(&mut text, ' ');
            }
            push_char(&mut text, pixel_char(self.pixels[i]));
            i = i + 1;
            assert(text@ =~= ascii_prefix(self.pixels@, row as int, i as int));
        }
        text
    }

    /// The texture's channel bytes in `RGBA` order.
    pub fn to_rgba(&self) -> (r: Vec<u8>)
        ensures
            r@ == rgba_bytes(self.pixels@),
    {
        Pixel::into_texture(self.pixels.as_slice())
    }
}

} // verus!
