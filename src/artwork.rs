use vstd::prelude::*;
use base64::Engine;
use image::{DynamicImage, ImageError};

verus! {

/// Prefix of the data URL under which artwork is handed to viewers.
pub open spec fn data_url_prefix() -> Seq<char> {
    "data:image/jpeg;base64,"@
}

/// The character of the standard base64 alphabet for a 6-bit value.
pub open spec fn b64_char(v: int) -> char {
    if v < 26 {
        ('A' as int + v) as char
    } else if v < 52 {
        ('a' as int + (v - 26)) as char
    } else if v < 62 {
        ('0' as int + (v - 52)) as char
    } else if v == 62 {
        '+'
    } else {
        '/'
    }
}

/// Padded base64 of `b` in the standard alphabet: each group of three bytes
/// gives four characters from its 6-bit fields; a last group of one or two
/// bytes gives two or three characters followed by `=` padding.
pub open spec fn base64_of(b: Seq<u8>) -> Seq<char>
    decreases b.len(),
{
    let x = if b.len() > 0 { b[0] as int } else { 0 };
    let y = if b.len() > 1 { b[1] as int } else { 0 };
    let z = if b.len() > 2 { b[2] as int } else { 0 };
    if b.len() == 0 {
        Seq::empty()
    } else if b.len() == 1 {
        seq![b64_char(x / 4), b64_char((x % 4) * 16), '=', '=']
    } else if b.len() == 2 {
        seq![b64_char(x / 4), b64_char((x % 4) * 16 + y / 16), b64_char((y % 16) * 4), '=']
    } else {
        seq![
            b64_char(x / 4),
            b64_char((x % 4) * 16 + y / 16),
            b64_char((y % 16) * 4 + z / 64),
            b64_char(z % 64),
        ] + base64_of(b.subrange(3, b.len() as int))
    }
}

/// Base64 output has four characters for each started group of three bytes.
pub proof fn lemma_base64_len(b: Seq<u8>)
    ensures
        base64_of(b).len() == 4 * ((b.len() + 2) / 3),
    decreases b.len(),
{
    if b.len() >= 3 {
        lemma_base64_len(b.subrange(3, b.len() as int));
    }
}

/// Relies on `base64::engine::general_purpose::STANDARD.encode`: the padded
/// standard-alphabet encoding, four characters for each started group of
/// three bytes. It panics when that length overflows `usize`, which the
/// bound on the input excludes.
#[verifier::external_body]
fn base64_encode(bytes: &[u8]) -> (r: String)
    requires
        bytes@.len() <= usize::MAX / 2,
    ensures
        r@ == base64_of(bytes@),
{
    base64::engine::general_purpose::STANDARD.encode(bytes)
}

/// Artwork bytes as a JPEG data URL.
pub fn encode_image_to_base64(bytes: &[u8]) -> (r: String)
    requires
        bytes@.len() <= usize::MAX / 2,
    ensures
        r@ == data_url_prefix() + base64_of(bytes@),
        r@.len() == data_url_prefix().len() + 4 * ((bytes@.len() + 2) / 3),
{
    let encoded = base64_encode(bytes);
    proof {
        lemma_base64_len(bytes@);
    }
    let mut out = String::from_str("data:image/jpeg;base64,");
    out.append(encoded.as_str());
    out
}

/// Hue used when the artwork has no pixel bright enough to count.
pub const DEFAULT_HUE: u16 = 148;

/// Channels at or above this level make a pixel count for the accent colour.
pub const DARK_LEVEL: u8 = 30;

/// Side of the square the artwork is shrunk into before it is sampled.
pub const SAMPLE_SIDE: u32 = 32;

/// A pixel too dark to say anything about the accent colour.
pub open spec fn is_dark(r: u8, g: u8, b: u8) -> bool {
    r < DARK_LEVEL && g < DARK_LEVEL && b < DARK_LEVEL
}

/// Channel sums and count of the pixels that are not dark among the first
/// `n` pixels of packed RGB data.
pub open spec fn bright_sums(px: Seq<u8>, n: nat) -> (int, int, int, int)
    decreases n,
{
    if n == 0 {
        (0, 0, 0, 0)
    } else {
        let (r, g, b, c) = bright_sums(px, (n - 1) as nat);
        let i = 3 * (n - 1);
        if is_dark(px[i], px[i + 1], px[i + 2]) {
            (r, g, b, c)
        } else {
            (r + px[i], g + px[i + 1], b + px[i + 2], c + 1)
        }
    }
}

/// `num / den` rounded to the nearest integer, halves upwards (`num, den >= 0`).
pub open spec fn round_div(num: int, den: int) -> int {
    (2 * num + den) / (2 * den)
}

/// Hue in degrees of an RGB colour, rounded to the nearest degree; grey has hue 0.
pub open spec fn hue_of(r: int, g: int, b: int) -> int {
    let max = if r >= g && r >= b {
        r
    } else if g >= b {
        g
    } else {
        b
    };
    let min = if r <= g && r <= b {
        r
    } else if g <= b {
        g
    } else {
        b
    };
    let delta = max - min;
    if delta == 0 {
        0
    } else if max == r {
        if g >= b {
            round_div(60 * (g - b), delta)
        } else {
            round_div(60 * (g - b) + 360 * delta, delta)
        }
    } else if max == g {
        round_div(60 * (b - r) + 120 * delta, delta)
    } else {
        round_div(60 * (r - g) + 240 * delta, delta)
    }
}

/// The accent hue of packed RGB pixels: the hue of the average colour of the
/// pixels that are not dark, or the default hue when every pixel is dark.
pub open spec fn accent_hue_spec(px: Seq<u8>) -> int {
    let (r, g, b, c) = bright_sums(px, px.len() / 3);
    if c == 0 {
        DEFAULT_HUE as int
    } else {
        hue_of(r / c, g / c, b / c)
    }
}

proof fn lemma_bright_sums_bounds(px: Seq<u8>, n: nat)
    requires
        3 * n <= px.len(),
    ensures
        0 <= bright_sums(px, n).3 <= n,
        0 <= bright_sums(px, n).0 <= 255 * bright_sums(px, n).3,
        0 <= bright_sums(px, n).1 <= 255 * bright_sums(px, n).3,
        0 <= bright_sums(px, n).2 <= 255 * bright_sums(px, n).3,
    decreases n,
{
    if n > 0 {
        lemma_bright_sums_bounds(px, (n - 1) as nat);
    }
}

proof fn lemma_round_div_bound(num: int, den: int)
    requires
        0 <= num < 360 * den,
        den > 0,
    ensures
        0 <= round_div(num, den) <= 360,
{
    assert(0 <= (2 * num + den) / (2 * den) <= 360) by (nonlinear_arith)
        requires
            0 <= num < 360 * den,
            den > 0,
    ;
}

/// The hue, in whole degrees, of a colour given by channels of at most 255.
pub fn hue_degrees(r: u64, g: u64, b: u64) -> (h: u16)
    requires
        r <= 255 && g <= 255 && b <= 255,
    ensures
        h as int == hue_of(r as int, g as int, b as int),
        h <= 360,
{
    let max = if r >= g && r >= b {
        r
    } else if g >= b {
        g
    } else {
        b
    };
    let min = if r <= g && r <= b {
        r
    } else if g <= b {
        g
    } else {
        b
    };
    let delta = max - min;
    if delta == 0 {
        return 0;
    }
    let num: u64 = if max == r {
        if g >= b {
            60 * (g - b)
        } else {
            360 * delta - 60 * (b - g)
        }
    } else if max == g {
        if b >= r {
            120 * delta + 60 * (b - r)
        } else {
            120 * delta - 60 * (r - b)
        }
    } else {
        if r >= g {
            240 * delta + 60 * (r - g)
        } else {
            240 * delta - 60 * (g - r)
        }
    };
    proof {
        lemma_round_div_bound(num as int, delta as int);
    }
    ((2 * num + delta) / (2 * delta)) as u16
}

/// The accent hue of packed RGB pixel data (three bytes per pixel; a
/// trailing partial pixel is ignored).
pub fn accent_hue_of_pixels(px: &[u8]) -> (h: u16)
    ensures
        h as int == accent_hue_spec(px@),
        h <= 360,
{
    let len = px.len();
    let n = len / 3;
    let mut r_sum: u128 = 0;
    let mut g_sum: u128 = 0;
    let mut b_sum: u128 = 0;
    let mut count: u128 = 0;
    let mut i: usize = 0;
    while i < n
        invariant
            len == px@.len(),
            n == len / 3,
            i <= n,
            (r_sum as int, g_sum as int, b_sum as int, count as int) == bright_sums(px@, i as nat),
        decreases n - i,
    {
        proof {
            lemma_bright_sums_bounds(px@, i as nat);
            assert(3 * i + 2 < px@.len()) by (nonlinear_arith)
                requires
                    i < n,
                    n == len / 3,
                    len == px@.len(),
            ;
        }
        let r = px[3 * i];
        let g = px[3 * i + 1];
        let b = px[3 * i + 2];
        if !(r < DARK_LEVEL && g < DARK_LEVEL && b < DARK_LEVEL) {
            r_sum = r_sum + r as u128;
            g_sum = g_sum + g as u128;
            b_sum = b_sum + b as u128;
            count = count + 1;
        }
        i = i + 1;
    }
    proof {
        lemma_bright_sums_bounds(px@, n as nat);
    }
    if count == 0 {
        return DEFAULT_HUE;
    }
    let r_avg = r_sum / count;
    let g_avg = g_sum / count;
    let b_avg = b_sum / count;
    proof {
        assert(r_avg <= 255 && g_avg <= 255 && b_avg <= 255) by (nonlinear_arith)
            requires
                r_sum <= 255 * count,
                g_sum <= 255 * count,
                b_sum <= 255 * count,
                count > 0,
                r_avg == r_sum / count,
                g_avg == g_sum / count,
                b_avg == b_sum / count,
        ;
    }
    hue_degrees(r_avg as u64, g_avg as u64, b_avg as u64)
}

#[verifier::external_type_specification]
#[verifier::external_body]
pub struct ExDynamicImage(DynamicImage);

#[verifier::external_type_specification]
#[verifier::external_body]
pub struct ExImageError(ImageError);

/// Relies on `image::load_from_memory`: decodes an image of a guessed format,
/// or fails with an `ImageError`.
pub assume_specification[ image::load_from_memory ](buffer: &[u8]) -> (r: Result<
    DynamicImage,
    ImageError,
>);

/// Relies on `DynamicImage::resize` with the Gaussian filter: the image scaled
/// to fit within `side` by `side`, aspect ratio kept.
#[verifier::external_body]
fn shrink(img: &DynamicImage, side: u32) -> (r: DynamicImage) {
    img.resize(side, side, image::imageops::FilterType::Gaussian)
}

/// Relies on `DynamicImage::to_rgb8` and `ImageBuffer::into_raw`: the image's
/// pixels as packed 8-bit RGB.
#[verifier::external_body]
fn rgb_bytes(img: &DynamicImage) -> (r: Vec<u8>) {
    img.to_rgb8().into_raw()
}

/// The accent hue of encoded artwork: the artwork is decoded, shrunk and
/// sampled as by `accent_hue_of_pixels`. Fails when it cannot be decoded.
pub fn extract_accent_color_hue(image_bytes: &[u8]) -> (r: Result<u16, ImageError>)
    ensures
        r is Ok ==> r->Ok_0 <= 360,
{
    let img = match image::load_from_memory(image_bytes) {
        Ok(img) => img,
        Err(e) => {
            return Err(e);
        },
    };
    let small = shrink(&img, SAMPLE_SIDE);
    let px = rgb_bytes(&small);
    Ok(accent_hue_of_pixels(px.as_slice()))
}

} // verus!
