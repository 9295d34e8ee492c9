//! Native file icons for the app picker: which file a stored launch
//! command names, how large an icon to ask the shell for, and how the
//! shell's 32-bit BGRA bitmap (with its monochrome mask for icons that
//! carry no alpha) becomes the RGBA pixels of a PNG `data:` URI.

use vstd::prelude::*;
use crate::apps::{base64_standard, data_uri_spec, icon_bytes_to_data_uri};
use crate::text::{chars_of, string_push, trim, trim_range};

verus! {

/// `s` without one pair of surrounding double quotes.
pub open spec fn unquoted(s: Seq<char>) -> Seq<char> {
    if s.len() >= 2 && s[0] == '"' && s.last() == '"' {
        s.subrange(1, s.len() - 1)
    } else {
        s
    }
}

/// `s` with every forward slash turned into a backslash.
pub open spec fn backslashed(s: Seq<char>) -> Seq<char> {
    Seq::new(s.len(), |i: int| if s[i] == '/' { '\\' } else { s[i] })
}

/// The file a stored launch command names: the command trimmed, without
/// surrounding quotes, with the separators the shell expects.
pub open spec fn icon_path_spec(command: Seq<char>) -> Seq<char> {
    backslashed(unquoted(trim(command)))
}

/// The file a stored launch command names (see [`icon_path_spec`]).
pub fn icon_path(command: &str) -> (r: String)
    ensures
        r@ == icon_path_spec(command@),
{
    let cs = chars_of(command);
    let (lo0, hi0) = trim_range(&cs, 0, cs.len());
    assert(cs@.subrange(0, cs@.len() as int) =~= command@);
    let ghost t = cs@.subrange(lo0 as int, hi0 as int);
    let mut lo = lo0;
    let mut hi = hi0;
    if hi - lo >= 2 && cs[lo] == '"' && cs[hi - 1] == '"' {
        assert(t[0] == cs@[lo as int]);
        assert(t.last() == cs@[hi - 1]);
        lo = lo + 1;
        hi = hi - 1;
        assert(cs@.subrange(lo as int, hi as int) =~= t.subrange(1, t.len() - 1));
    } else {
        proof {
            if t.len() >= 2 {
                assert(t[0] == cs@[lo as int]);
                assert(t.last() == cs@[hi - 1]);
            }
        }
    }
    let ghost u = cs@.subrange(lo as int, hi as int);
    assert(u == unquoted(t));
    let mut r = String::new();
    let mut i = lo;
    while i < hi
        invariant
            lo <= i <= hi,
            hi <= cs@.len(),
            u == cs@.subrange(lo as int, hi as int),
            r@ == backslashed(u).take(i - lo),
        decreases hi - i,
    {
        let c = cs[i];
        let d = if c == '/' { '\\' } else { c };
        string_push(&mut r, d);
        i = i + 1;
        assert(r@ =~= backslashed(u).take(i - lo));
    }
    assert(backslashed(u).take(hi - lo) =~= backslashed(u));
    r
}

/// The icon edge to ask the shell for: the requested size kept within 16
/// to 256 pixels.
pub fn icon_edge(size: i32) -> (r: u32)
    ensures
        r == if size < 16 {
            16
        } else if size > 256 {
            256
        } else {
            size as u32
        },
{
    if size < 16 {
        16
    } else if size > 256 {
        256
    } else {
        size as u32
    }
}

/// `q` is `p` with the first and third byte of every whole four-byte pixel
/// swapped (BGRA to RGBA); bytes past the last whole pixel are kept.
pub open spec fn red_blue_swapped(p: Seq<u8>, q: Seq<u8>) -> bool {
    &&& q.len() == p.len()
    &&& forall|i: int|
        0 <= i < p.len() ==> #[trigger] q[i] == if i < p.len() - p.len() % 4 {
            if i % 4 == 0 {
                p[i + 2]
            } else if i % 4 == 2 {
                p[i - 2]
            } else {
                p[i]
            }
        } else {
            p[i]
        }
}

/// Turns 32-bit BGRA pixels into RGBA in place.
pub fn swap_red_blue(pixels: &mut Vec<u8>)
    ensures
        red_blue_swapped(old(pixels)@, final(pixels)@),
{
    let n = pixels.len();
    let whole = n - n % 4;
    let mut i: usize = 0;
    while i < whole
        invariant
            n == pixels@.len(),
            n == old(pixels)@.len(),
            whole == n - n % 4,
            i <= whole,
            i % 4 == 0,
            forall|j: int| i <= j < n ==> #[trigger] pixels@[j] == old(pixels)@[j],
            forall|j: int|
                0 <= j < i ==> #[trigger] pixels@[j] == if j % 4 == 0 {
                    old(pixels)@[j + 2]
                } else if j % 4 == 2 {
                    old(pixels)@[j - 2]
                } else {
                    old(pixels)@[j]
                },
        decreases whole - i,
    {
        let b = pixels[i];
        let r = pixels[i + 2];
        pixels.set(i, r);
        pixels.set(i + 2, b);
        i = i + 4;
    }
}

/// Whether some whole pixel has a nonzero alpha byte.
pub open spec fn has_alpha_spec(p: Seq<u8>) -> bool {
    exists|k: int| 0 <= k < p.len() / 4 && #[trigger] p[4 * k + 3] != 0
}

/// Whether some whole pixel has a nonzero alpha byte.
pub fn has_alpha(pixels: &Vec<u8>) -> (r: bool)
    ensures
        r == has_alpha_spec(pixels@),
{
    let n = pixels.len();
    let count = n / 4;
    let mut k: usize = 0;
    while k < count
        invariant
            n == pixels@.len(),
            count == n / 4,
            k <= count,
            forall|j: int| 0 <= j < k ==> #[trigger] pixels@[4 * j + 3] == 0,
        decreases count - k,
    {
        assert(4 * k + 3 < pixels@.len());
        if pixels[4 * k + 3] != 0 {
            return true;
        }
        k = k + 1;
    }
    false
}

/// The byte length of a row of a 1-bit mask `width` pixels wide: rows are
/// padded to whole 32-bit words.
pub open spec fn mask_stride_spec(width: int) -> int {
    ((width + 31) / 32) * 4
}

/// The byte length of a mask row (see [`mask_stride_spec`]).
pub fn mask_stride(width: usize) -> (r: usize)
    requires
        width + 31 <= usize::MAX,
    ensures
        r == mask_stride_spec(width as int),
{
    ((width + 31) / 32) * 4
}

/// The mask bit of column `x` in a mask byte: bits run from the most
/// significant down.
pub open spec fn mask_bit(b: u8, x: int) -> u8 {
    (b >> ((7 - x % 8) as u32)) & 1u8
}

/// A column's mask byte lies within its row.
proof fn lemma_mask_byte_in_row(x: int, width: int)
    requires
        0 <= x < width,
    ensures
        x / 8 < mask_stride_spec(width),
{
    let q = (width + 31) / 32;
    assert(width <= 32 * q);
    assert(x / 8 <= 4 * q - 1);
}

/// A pixel of an earlier row comes before the row starting at `row`.
proof fn lemma_earlier_row(yy: int, xx: int, y: int, w: int, row: int)
    by (nonlinear_arith)
    requires
        0 <= yy < y,
        0 <= xx < w,
        row == y * w * 4,
    ensures
        0 <= (yy * w + xx) * 4 + 3 < row,
{
}

/// The alpha byte of each pixel of a `width` by `height` RGBA image taken
/// from its 1-bit AND mask: opaque where the mask bit is clear, transparent
/// where it is set. The other bytes are kept.
pub open spec fn alpha_from_mask(p: Seq<u8>, q: Seq<u8>, mask: Seq<u8>, width: int, height: int) -> bool {
    &&& q.len() == p.len()
    &&& forall|i: int| 0 <= i < p.len() && i % 4 != 3 ==> #[trigger] q[i] == p[i]
    &&& forall|y: int, x: int|
        0 <= y < height && 0 <= x < width ==> #[trigger] q[(y * width + x) * 4 + 3] == if mask_bit(
            mask[y * mask_stride_spec(width) + x / 8],
            x,
        ) == 0 {
            0xFFu8
        } else {
            0u8
        }
}

/// Rebuilds the alpha of an image without one from its monochrome mask
/// (see [`alpha_from_mask`]); `mask` holds `height` rows of
/// [`mask_stride`] bytes.
pub fn apply_and_mask(pixels: &mut Vec<u8>, mask: &Vec<u8>, width: usize, height: usize)
    requires
        old(pixels)@.len() == width * height * 4,
        width + 31 <= usize::MAX,
        mask@.len() >= mask_stride_spec(width as int) * height,
    ensures
        alpha_from_mask(old(pixels)@, final(pixels)@, mask@, width as int, height as int),
{
    let stride = mask_stride(width);
    let total = pixels.len();
    let mask_len = mask.len();
    let ghost w = width as int;
    let ghost ms = stride as int;
    let mut y: usize = 0;
    let mut row: usize = 0;
    let mut mrow: usize = 0;
    proof {
        assert(0 * w == 0) by (nonlinear_arith);
    }
    while y < height
        invariant
            pixels@.len() == old(pixels)@.len(),
            pixels@.len() == width * height * 4,
            pixels@.len() == total,
            mask@.len() == mask_len,
            mask@.len() >= ms * height,
            ms == mask_stride_spec(w),
            w == width,
            stride == ms,
            y <= height,
            row == y * w * 4,
            mrow == y * ms,
            forall|i: int| 0 <= i < pixels@.len() && (i % 4 != 3 || i >= row) ==> #[trigger] pixels@[i]
                == old(pixels)@[i],
            forall|yy: int, x: int|
                0 <= yy < y && 0 <= x < w ==> #[trigger] pixels@[(yy * w + x) * 4 + 3] == if mask_bit(
                    mask@[yy * ms + x / 8],
                    x,
                ) == 0 {
                    0xFFu8
                } else {
                    0u8
                },
        decreases height - y,
    {
        proof {
            assert((y + 1) * w * 4 <= height * w * 4) by (nonlinear_arith)
                requires
                    y < height,
                    w >= 0,
            ;
            assert(width * height * 4 == height * w * 4) by (nonlinear_arith)
                requires
                    w == width,
            ;
            assert((y + 1) * ms <= height * ms) by (nonlinear_arith)
                requires
                    y < height,
                    ms >= 0,
            ;
            assert((y + 1) * w * 4 == y * w * 4 + w * 4) by (nonlinear_arith);
            assert((y + 1) * ms == y * ms + ms) by (nonlinear_arith);
        }
        let ghost snap = pixels@;
        let mut x: usize = 0;
        while x < width
            invariant
                pixels@.len() == old(pixels)@.len(),
                pixels@.len() == width * height * 4,
                pixels@.len() == total,
                mask@.len() == mask_len,
                mask@.len() >= ms * height,
                ms == mask_stride_spec(w),
                w == width,
                stride == ms,
                y < height,
                row == y * w * 4,
                mrow == y * ms,
                row + w * 4 <= pixels@.len(),
                mrow + ms <= mask@.len(),
                x <= width,
                forall|i: int| 0 <= i < pixels@.len() && (i % 4 != 3 || i >= row + 4 * x) ==> #[trigger] pixels@[i]
                    == old(pixels)@[i],
                snap.len() == pixels@.len(),
                forall|i: int| 0 <= i < row ==> #[trigger] pixels@[i] == snap[i],
                forall|xx: int|
                    0 <= xx < x ==> #[trigger] pixels@[row + 4 * xx + 3] == if mask_bit(mask@[mrow + xx / 8], xx)
                        == 0 {
                        0xFFu8
                    } else {
                        0u8
                    },
            decreases width - x,
        {
            proof {
                lemma_mask_byte_in_row(x as int, w);
            }
            assert(mrow + x / 8 < mask@.len());
            let b = mask[mrow + x / 8];
            let shift = (7 - x % 8) as u32;
            let bit = (b >> shift) & 1u8;
            assert(bit == mask_bit(b, x as int));
            let alpha: u8 = if bit == 0 { 0xFF } else { 0 };
            assert(row + 4 * x + 3 < pixels@.len());
            pixels.set(row + 4 * x + 3, alpha);
            x = x + 1;
        }
        proof {
            assert forall|yy: int, xx: int| 0 <= yy < y && 0 <= xx < w implies #[trigger] pixels@[(yy * w + xx) * 4 + 3]
                == if mask_bit(mask@[yy * ms + xx / 8], xx) == 0 {
                0xFFu8
            } else {
                0u8
            } by {
                lemma_earlier_row(yy, xx, y as int, w, row as int);
                assert(pixels@[(yy * w + xx) * 4 + 3] == snap[(yy * w + xx) * 4 + 3]);
            }
            assert forall|xx: int| 0 <= xx < w implies #[trigger] pixels@[(y * w + xx) * 4 + 3] == if mask_bit(
                mask@[y * ms + xx / 8],
                xx,
            ) == 0 {
                0xFFu8
            } else {
                0u8
            } by {
                assert((y * w + xx) * 4 + 3 == row + 4 * xx + 3) by (nonlinear_arith)
                    requires
                        row == y * w * 4,
                ;
            }
        }
        y = y + 1;
        row = row + width * 4;
        mrow = mrow + stride;
    }
    proof {
        assert forall|yy: int, x: int| 0 <= yy < height && 0 <= x < w implies #[trigger] pixels@[(yy * w + x) * 4 + 3]
            == if mask_bit(mask@[yy * mask_stride_spec(w) + x / 8], x) == 0 {
            0xFFu8
        } else {
            0u8
        } by {}
    }
}

/// The name of the PNG file that the `png` crate's encoder, with its
/// default options, writes for a `width` by `height` image of 8-bit RGBA
/// pixel bytes `rgba`.
pub uninterp spec fn png_rgba_file(width: u32, height: u32, rgba: Seq<u8>) -> Seq<u8>;

/// Whether the `png` encoder takes a `width` by `height` image given as
/// `len` bytes of 8-bit RGBA pixels: both sides nonzero, four bytes a pixel.
pub open spec fn png_accepts(width: u32, height: u32, len: nat) -> bool {
    width > 0 && height > 0 && len == 4 * width * height
}

/// Encodes RGBA pixels as a PNG file with the `png` crate: an `Encoder`
/// writing into a byte vector, RGBA color at 8-bit depth, the header, then
/// the image data; dropping the writer writes the closing chunk. The crate
/// refuses a zero width or height when writing the header and a pixel
/// buffer of the wrong length when writing the data; writes into a vector
/// never fail, so on the inputs [`png_accepts`] admits both steps succeed
/// and the bytes are the file [`png_rgba_file`] names. A vector never holds
/// more than `isize::MAX` bytes.
#[verifier::external_body]
fn encode_png_rgba(width: u32, height: u32, rgba: &[u8]) -> (r: Option<Vec<u8>>)
    requires
        png_accepts(width, height, rgba@.len()),
    ensures
        r is Some,
        r matches Some(b) ==> b@ == png_rgba_file(width, height, rgba@) && b@.len() <= isize::MAX,
{
    let mut png = Vec::new();
    {
        let mut encoder = png::Encoder::new(&mut png, width, height);
        encoder.set_color(png::ColorType::Rgba);
        encoder.set_depth(png::BitDepth::Eight);
        let mut writer = match encoder.write_header() {
            Ok(writer) => writer,
            Err(_) => return None,
        };
        if writer.write_image_data(rgba).is_err() {
            return None;
        }
    }
    Some(png)
}

/// The `data:` URI of an encoded PNG icon, empty when there is none.
pub fn png_uri_from(png: Option<Vec<u8>>) -> (r: String)
    requires
        png matches Some(b) ==> b@.len() <= isize::MAX,
    ensures
        match png {
            Some(b) => r@ == data_uri_spec("image/png"@, base64_standard(b@)),
            None => r@.len() == 0,
        },
{
    match png {
        Some(bytes) => {
            proof {
                reveal_strlit("image/png");
            }
            icon_bytes_to_data_uri("image/png", bytes.as_slice())
        },
        None => String::new(),
    }
}

/// Whether `len` bytes are exactly `width` by `height` RGBA pixels, with
/// neither side zero (see [`png_accepts`]).
fn fits_png(width: u32, height: u32, len: usize) -> (r: bool)
    ensures
        r == png_accepts(width, height, len as nat),
{
    if width == 0 || height == 0 {
        return false;
    }
    let w = width as u128;
    let h = height as u128;
    assert(w * h <= 0xffff_ffffu128 * 0xffff_ffffu128) by (nonlinear_arith)
        requires
            w <= 0xffff_ffffu128,
            h <= 0xffff_ffffu128,
    ;
    let area = w * h * 4;
    proof {
        assert(area == 4 * width * height) by (nonlinear_arith)
            requires
                area == w * h * 4,
                w == width,
                h == height,
        ;
    }
    area == len as u128
}

/// The `data:` URI of an icon's RGBA pixels: the PNG file the `png` crate
/// writes for them, base64-encoded; empty when the encoder refuses them.
pub fn png_data_uri(width: u32, height: u32, rgba: &Vec<u8>) -> (r: String)
    ensures
        r@ == if png_accepts(width, height, rgba@.len()) {
            data_uri_spec("image/png"@, base64_standard(png_rgba_file(width, height, rgba@)))
        } else {
            Seq::<char>::empty()
        },
{
    if !fits_png(width, height, rgba.len()) {
        return String::new();
    }
    let png = encode_png_rgba(width, height, rgba.as_slice());
    png_uri_from(png)
}

} // verus!
