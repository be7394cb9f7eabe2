//! Pictures: the logo and its variants for the tray, and the icons of the
//! windows as SVG texts.
use crate::text::{cat, cat3, same};
use vstd::prelude::*;

verus! {

// -------------------------------------------------------------------- the logo

/// What the PNG decoder makes of a file: the samples of its first image row by
/// row, the kind of colour by its number in the format, and the width and the
/// height. None where the file is no PNG that it can read.
pub uninterp spec fn png_image(bytes: Seq<u8>) -> Option<(Seq<u8>, u8, u32, u32)>;

/// An image as it is decoded.
#[derive(Debug)]
pub struct RawImage {
    pub samples: Vec<u8>,
    /// 0 grey, 2 colour, 3 palette, 4 grey with alpha, 6 colour with alpha.
    pub color: u8,
    pub width: u32,
    pub height: u32,
}

pub open spec fn raw_view(r: Option<RawImage>) -> Option<(Seq<u8>, u8, u32, u32)> {
    match r {
        Some(i) => Some((i.samples@, i.color, i.width, i.height)),
        None => None,
    }
}

/// Calls `png::Decoder::new` on the bytes, `read_info`, `output_buffer_size` and
/// `next_frame`, and hands on the decoded samples with the frame's colour type,
/// width and height. Claims only that the outcome depends on the bytes alone,
/// and gives it the name `png_image`.
#[verifier::external_body]
fn decode_png(bytes: &[u8]) -> (r: Option<RawImage>)
    ensures
        raw_view(r) == png_image(bytes@),
{
    let decoder = png::Decoder::new(std::io::Cursor::new(bytes));
    let mut reader = decoder.read_info().ok()?;
    let mut samples = vec![0u8; reader.output_buffer_size()?];
    let info = reader.next_frame(&mut samples).ok()?;
    samples.truncate(info.buffer_size());
    let color: u8 = match info.color_type {
        png::ColorType::Grayscale => 0,
        png::ColorType::Rgb => 2,
        png::ColorType::Indexed => 3,
        png::ColorType::GrayscaleAlpha => 4,
        png::ColorType::Rgba => 6,
    };
    Some(RawImage { samples, color, width: info.width, height: info.height })
}

/// Samples per pixel of the kinds of colour that can be shown.
pub open spec fn samples_per_pixel(color: u8) -> Option<int> {
    if color == 0 {
        Some(1)
    } else if color == 2 {
        Some(3)
    } else if color == 4 {
        Some(2)
    } else if color == 6 {
        Some(4)
    } else {
        None
    }
}

/// The samples as straight RGBA. Colour without alpha is opaque, and grey has
/// three equal channels.
pub open spec fn straight(s: Seq<u8>, color: u8) -> Seq<u8> {
    if color == 6 {
        s
    } else if color == 2 {
        Seq::new(
            (s.len() / 3 * 4) as nat,
            |i: int|
                if i % 4 == 3 {
                    255u8
                } else {
                    s[i / 4 * 3 + i % 4]
                },
        )
    } else if color == 4 {
        Seq::new(
            (s.len() / 2 * 4) as nat,
            |i: int|
                if i % 4 == 3 {
                    s[i / 4 * 2 + 1]
                } else {
                    s[i / 4 * 2]
                },
        )
    } else {
        Seq::new(
            (s.len() * 4) as nat,
            |i: int|
                if i % 4 == 3 {
                    255u8
                } else {
                    s[i / 4]
                },
        )
    }
}

/// The samples hold whole pixels of a kind of colour that can be shown.
pub open spec fn whole_pixels(len: nat, color: u8) -> bool {
    match samples_per_pixel(color) {
        Some(n) => len % (n as nat) == 0,
        None => false,
    }
}

fn put_pixel(v: &mut Vec<u8>, r: u8, g: u8, b: u8, a: u8)
    ensures
        final(v)@ == old(v)@ + seq![r, g, b, a],
{
    let ghost before = v@;
    v.push(r);
    v.push(g);
    v.push(b);
    v.push(a);
    assert(v@ =~= before + seq![r, g, b, a]);
}

/// Decoded samples as straight RGBA.
pub fn to_rgba(s: Vec<u8>, color: u8) -> (r: Vec<u8>)
    requires
        whole_pixels(s@.len(), color),
    ensures
        r@ == straight(s@, color),
{
    if color == 6 {
        return s;
    }
    let n: usize = if color == 2 {
        s.len() / 3
    } else if color == 4 {
        s.len() / 2
    } else {
        s.len()
    };
    let ghost all = straight(s@, color);
    let mut out: Vec<u8> = Vec::new();
    let mut k: usize = 0;
    while k < n
        invariant
            k <= n,
            color == 2 || color == 4 || color == 0,
            n == (if color == 2 {
                s.len() as int / 3
            } else if color == 4 {
                s.len() as int / 2
            } else {
                s.len() as int
            }),
            all == straight(s@, color),
            out@.len() == 4 * k,
            forall|j: int| 0 <= j < 4 * k ==> out@[j] == all[j],
        decreases n - k,
    {
        let ghost before = out@;
        let (r, g, b, a) = if color == 2 {
            (s[3 * k], s[3 * k + 1], s[3 * k + 2], 255u8)
        } else if color == 4 {
            (s[2 * k], s[2 * k], s[2 * k], s[2 * k + 1])
        } else {
            (s[k], s[k], s[k], 255u8)
        };
        put_pixel(&mut out, r, g, b, a);
        proof {
            assert forall|j: int| 0 <= j < 4 * (k + 1) implies out@[j] == all[j] by {
                if j < 4 * k {
                    assert(out@[j] == before[j]);
                } else {
                    assert(j / 4 == k);
                    assert(out@[j] == seq![r, g, b, a][j - 4 * k]);
                    assert(j % 4 == j - 4 * k);
                }
            }
        }
        k += 1;
    }
    assert(out@ =~= all);
    out
}

/// The logo as straight RGBA, with its width and height: none where it cannot
/// be decoded, has a palette, or holds part of a pixel.
pub open spec fn logo_of(image: Option<(Seq<u8>, u8, u32, u32)>) -> Option<(Seq<u8>, u32, u32)> {
    match image {
        Some((s, color, w, h)) => if whole_pixels(s.len(), color) {
            Some((straight(s, color), w, h))
        } else {
            None
        },
        None => None,
    }
}

pub open spec fn rgba_view(r: Option<(Vec<u8>, u32, u32)>) -> Option<(Seq<u8>, u32, u32)> {
    match r {
        Some((v, w, h)) => Some((v@, w, h)),
        None => None,
    }
}

fn fits(len: usize, color: u8) -> (r: bool)
    ensures
        r == whole_pixels(len as nat, color),
{
    if color == 2 {
        len % 3 == 0
    } else if color == 4 {
        len % 2 == 0
    } else if color == 6 {
        len % 4 == 0
    } else {
        color == 0
    }
}

/// A decoded image as straight RGBA.
pub fn image_rgba(image: Option<RawImage>) -> (r: Option<(Vec<u8>, u32, u32)>)
    ensures
        rgba_view(r) == logo_of(raw_view(image)),
{
    match image {
        Some(i) => if fits(i.samples.len(), i.color) {
            Some((to_rgba(i.samples, i.color), i.width, i.height))
        } else {
            None
        },
        None => None,
    }
}

/// The logo file as straight RGBA, shared by the tray icon and the windows.
pub fn logo_rgba(file: &[u8]) -> (r: Option<(Vec<u8>, u32, u32)>)
    ensures
        rgba_view(r) == logo_of(png_image(file@)),
{
    image_rgba(decode_png(file))
}

/// A pixel that counts as white.
pub open spec fn whiteish(r: u8, g: u8, b: u8) -> bool {
    r > 220 && g > 220 && b > 220
}

/// The silhouette of an image: opaque pixels become the mark, white ones become
/// cutouts.
pub open spec fn silhouette(rgba: Seq<u8>, white: bool) -> Seq<u8> {
    Seq::new(
        rgba.len(),
        |i: int|
            if i % 4 == 3 {
                if whiteish(rgba[i - 3], rgba[i - 2], rgba[i - 1]) {
                    0u8
                } else {
                    rgba[i]
                }
            } else if white {
                255u8
            } else {
                0u8
            },
    )
}

/// The silhouette of an RGBA image, white for dark panels or black.
pub fn mono_rgba(rgba: &Vec<u8>, white: bool) -> (r: Vec<u8>)
    requires
        rgba@.len() % 4 == 0,
    ensures
        r@ == silhouette(rgba@, white),
{
    let v: u8 = if white {
        255
    } else {
        0
    };
    let n = rgba.len() / 4;
    let ghost all = silhouette(rgba@, white);
    let mut out: Vec<u8> = Vec::new();
    let mut k: usize = 0;
    while k < n
        invariant
            k <= n,
            n == rgba.len() as int / 4,
            rgba@.len() % 4 == 0,
            v == (if white {
                255u8
            } else {
                0u8
            }),
            all == silhouette(rgba@, white),
            out@.len() == 4 * k,
            forall|j: int| 0 <= j < 4 * k ==> out@[j] == all[j],
        decreases n - k,
    {
        let ghost before = out@;
        let i = 4 * k;
        let cut = rgba[i] > 220 && rgba[i + 1] > 220 && rgba[i + 2] > 220;
        let a: u8 = if cut {
            0
        } else {
            rgba[i + 3]
        };
        put_pixel(&mut out, v, v, v, a);
        proof {
            assert forall|j: int| 0 <= j < 4 * (k + 1) implies out@[j] == all[j] by {
                if j < 4 * k {
                    assert(out@[j] == before[j]);
                } else {
                    assert(out@[j] == seq![v, v, v, a][j - 4 * k]);
                    assert(j % 4 == j - 4 * k);
                }
            }
        }
        k += 1;
    }
    assert(out@ =~= all);
    out
}

/// The logo's silhouette, as the trays show it. A logo whose pixels are not
/// whole after decoding is none.
pub fn logo_mono_rgba(file: &[u8], white: bool) -> (r: Option<(Vec<u8>, u32, u32)>)
    ensures
        rgba_view(r) == (match logo_of(png_image(file@)) {
            Some((rgba, w, h)) => if rgba.len() % 4 == 0 {
                Some((silhouette(rgba, white), w, h))
            } else {
                None
            },
            None => None,
        }),
{
    match logo_rgba(file) {
        Some((rgba, w, h)) => if rgba.len() % 4 == 0 {
            Some((mono_rgba(&rgba, white), w, h))
        } else {
            None
        },
        None => None,
    }
}

// --------------------------------------------------------------------- pixmaps

/// A channel of the pixel at `x` and `y`.
pub open spec fn channel(rgba: Seq<u8>, w: int, x: int, y: int, c: int) -> int {
    rgba[(y * w + x) * 4 + c] as int
}

/// The alpha of the first `n` pixels of a block, together.
pub open spec fn alpha_sum(rgba: Seq<u8>, w: int, f: int, ox: int, oy: int, n: int) -> int
    decreases n,
{
    if n <= 0 {
        0
    } else {
        alpha_sum(rgba, w, f, ox, oy, n - 1) + channel(
            rgba,
            w,
            ox * f + (n - 1) % f,
            oy * f + (n - 1) / f,
            3,
        )
    }
}

/// A colour channel of the first `n` pixels of a block, weighted by their alpha:
/// transparent pixels do not bleed into the edges.
pub open spec fn color_sum(rgba: Seq<u8>, w: int, f: int, ox: int, oy: int, c: int, n: int) -> int
    decreases n,
{
    if n <= 0 {
        0
    } else {
        let x = ox * f + (n - 1) % f;
        let y = oy * f + (n - 1) / f;
        color_sum(rgba, w, f, ox, oy, c, n - 1) + channel(rgba, w, x, y, c) * channel(
            rgba,
            w,
            x,
            y,
            3,
        )
    }
}

/// A channel of the pixel that stands for a block. A block without any alpha has
/// no colour.
pub open spec fn averaged(rgba: Seq<u8>, w: int, f: int, ox: int, oy: int, c: int) -> u8 {
    let a = alpha_sum(rgba, w, f, ox, oy, f * f);
    if c == 3 {
        (a / (f * f)) as u8
    } else if a == 0 {
        0u8
    } else {
        (color_sum(rgba, w, f, ox, oy, c, f * f) / a) as u8
    }
}

/// An image, `f` times smaller in both directions.
pub open spec fn downscaled(rgba: Seq<u8>, w: int, h: int, f: int) -> Seq<u8> {
    Seq::new(
        (w / f * (h / f) * 4) as nat,
        |i: int| averaged(rgba, w, f, (i / 4) % (w / f), (i / 4) / (w / f), i % 4),
    )
}

/// The pixels of a block lie inside the image.
proof fn lemma_inside(w: int, h: int, f: int, ox: int, oy: int, k: int)
    requires
        f > 0,
        0 <= ox < w / f,
        0 <= oy < h / f,
        0 <= k < f * f,
    ensures
        0 <= ox * f + k % f < w,
        0 <= oy * f + k / f < h,
        0 <= (oy * f + k / f) * w + (ox * f + k % f) < w * h,
{
    let x = ox * f + k % f;
    let y = oy * f + k / f;
    assert(0 <= k % f < f);
    assert(0 <= k / f < f) by (nonlinear_arith)
        requires
            f > 0,
            0 <= k < f * f,
    ;
    assert((ox + 1) * f <= w) by (nonlinear_arith)
        requires
            f > 0,
            ox + 1 <= w / f,
    ;
    assert((oy + 1) * f <= h) by (nonlinear_arith)
        requires
            f > 0,
            oy + 1 <= h / f,
    ;
    assert((ox + 1) * f == ox * f + f) by (nonlinear_arith);
    assert((oy + 1) * f == oy * f + f) by (nonlinear_arith);
    assert(0 <= ox * f) by (nonlinear_arith)
        requires
            f > 0,
            ox >= 0,
    ;
    assert(0 <= oy * f) by (nonlinear_arith)
        requires
            f > 0,
            oy >= 0,
    ;
    assert(0 <= y * w + x < w * h) by (nonlinear_arith)
        requires
            0 <= x < w,
            0 <= y < h,
    ;
}

/// The pixel that stands for one block.
fn average(rgba: &Vec<u8>, w: usize, h: usize, f: usize, ox: usize, oy: usize) -> (r: (
    u8,
    u8,
    u8,
    u8,
))
    requires
        f > 0,
        w * h * 4 <= rgba@.len(),
        f * f <= usize::MAX,
        0 <= ox < w as int / f as int,
        0 <= oy < h as int / f as int,
    ensures
        r.0 == averaged(rgba@, w as int, f as int, ox as int, oy as int, 0),
        r.1 == averaged(rgba@, w as int, f as int, ox as int, oy as int, 1),
        r.2 == averaged(rgba@, w as int, f as int, ox as int, oy as int, 2),
        r.3 == averaged(rgba@, w as int, f as int, ox as int, oy as int, 3),
{
    let ghost (iw, fi, oxi, oyi) = (w as int, f as int, ox as int, oy as int);
    let n: usize = f * f;
    let mut red: u128 = 0;
    let mut green: u128 = 0;
    let mut blue: u128 = 0;
    let mut alpha: u128 = 0;
    let mut k: usize = 0;
    while k < n
        invariant
            f > 0,
            k <= n,
            n == f * f,
            w * h * 4 <= rgba.len(),
            iw == w,
            fi == f,
            oxi == ox,
            oyi == oy,
            0 <= ox < w as int / f as int,
            0 <= oy < h as int / f as int,
            red == color_sum(rgba@, iw, fi, oxi, oyi, 0, k as int),
            green == color_sum(rgba@, iw, fi, oxi, oyi, 1, k as int),
            blue == color_sum(rgba@, iw, fi, oxi, oyi, 2, k as int),
            alpha == alpha_sum(rgba@, iw, fi, oxi, oyi, k as int),
            alpha <= 255 * (k as int),
            red <= 255 * alpha,
            green <= 255 * alpha,
            blue <= 255 * alpha,
        decreases n - k,
    {
        proof {
            lemma_inside(w as int, h as int, f as int, ox as int, oy as int, k as int);
            assert(w * h <= usize::MAX);
        }
        let x: usize = ox * f + k % f;
        let y: usize = oy * f + k / f;
        let at: usize = (y * w + x) * 4;
        let a = rgba[at + 3] as u128;
        let (r, g, b) = (rgba[at] as u128, rgba[at + 1] as u128, rgba[at + 2] as u128);
        proof {
            assert(r * a <= 255 * a) by (nonlinear_arith)
                requires
                    r <= 255,
                    a >= 0,
            ;
            assert(g * a <= 255 * a) by (nonlinear_arith)
                requires
                    g <= 255,
                    a >= 0,
            ;
            assert(b * a <= 255 * a) by (nonlinear_arith)
                requires
                    b <= 255,
                    a >= 0,
            ;
        }
        red = red + r * a;
        green = green + g * a;
        blue = blue + b * a;
        alpha = alpha + a;
        k += 1;
    }
    let whole = n as u128;
    proof {
        assert(whole > 0) by (nonlinear_arith)
            requires
                whole == f * f,
                f > 0,
        ;
        assert(alpha / whole <= 255) by (nonlinear_arith)
            requires
                alpha <= 255 * whole,
                whole > 0,
        ;
        if alpha > 0 {
            assert(red / alpha <= 255) by (nonlinear_arith)
                requires
                    red <= 255 * alpha,
                    alpha > 0,
            ;
            assert(green / alpha <= 255) by (nonlinear_arith)
                requires
                    green <= 255 * alpha,
                    alpha > 0,
            ;
            assert(blue / alpha <= 255) by (nonlinear_arith)
                requires
                    blue <= 255 * alpha,
                    alpha > 0,
            ;
        }
    }
    let a = (alpha / whole) as u8;
    if alpha == 0 {
        (0, 0, 0, a)
    } else {
        ((red / alpha) as u8, (green / alpha) as u8, (blue / alpha) as u8, a)
    }
}

/// Averages blocks of `f` by `f` pixels.
pub fn box_downscale(rgba: &Vec<u8>, w: usize, h: usize, f: usize) -> (r: Vec<u8>)
    requires
        f > 0,
        f * f <= usize::MAX,
        w * h * 4 <= rgba@.len(),
    ensures
        r@ == downscaled(rgba@, w as int, h as int, f as int),
{
    let ow: usize = w / f;
    let oh: usize = h / f;
    proof {
        assert(w * h * 4 <= rgba.len());
        assert(ow * oh <= w * h) by (nonlinear_arith)
            requires
                0 <= ow <= w,
                0 <= oh <= h,
        ;
    }
    let ghost all = downscaled(rgba@, w as int, h as int, f as int);
    let n: usize = ow * oh;
    let mut out: Vec<u8> = Vec::new();
    let mut k: usize = 0;
    while k < n
        invariant
            f > 0,
            f * f <= usize::MAX,
            w * h * 4 <= rgba@.len(),
            ow == w as int / f as int,
            oh == h as int / f as int,
            n == ow * oh,
            k <= n,
            all == downscaled(rgba@, w as int, h as int, f as int),
            all.len() == 4 * n,
            out@.len() == 4 * k,
            forall|j: int| 0 <= j < 4 * k ==> out@[j] == all[j],
        decreases n - k,
    {
        proof {
            assert(ow > 0) by (nonlinear_arith)
                requires
                    0 <= k < ow * oh,
                    ow >= 0,
            ;
            assert(k as int / ow as int >= 0 && (k as int / ow as int) < oh) by (nonlinear_arith)
                requires
                    0 <= k < ow * oh,
                    ow > 0,
            ;
            assert(0 <= k as int % ow as int && k as int % (ow as int) < ow);
        }
        let ghost before = out@;
        let (r, g, b, a) = average(rgba, w, h, f, k % ow, k / ow);
        put_pixel(&mut out, r, g, b, a);
        proof {
            assert forall|j: int| 0 <= j < 4 * (k + 1) implies out@[j] == all[j] by {
                if j < 4 * k {
                    assert(out@[j] == before[j]);
                } else {
                    assert(j / 4 == k);
                    assert(j % 4 == j - 4 * k);
                    assert(out@[j] == seq![r, g, b, a][j - 4 * k]);
                }
            }
        }
        k += 1;
    }
    assert(out@ =~= all);
    out
}

/// The bytes of an image with the alpha in front.
pub open spec fn alpha_first(rgba: Seq<u8>) -> Seq<u8> {
    Seq::new(
        (rgba.len() / 4 * 4) as nat,
        |i: int|
            if i % 4 == 0 {
                rgba[i + 3]
            } else {
                rgba[i - 1]
            },
    )
}

/// RGBA as the status-notifier protocol takes it.
pub fn to_argb(rgba: &Vec<u8>) -> (r: Vec<u8>)
    ensures
        r@ == alpha_first(rgba@),
{
    let n = rgba.len() / 4;
    let ghost all = alpha_first(rgba@);
    let mut out: Vec<u8> = Vec::new();
    let mut k: usize = 0;
    while k < n
        invariant
            k <= n,
            n == rgba.len() as int / 4,
            all == alpha_first(rgba@),
            out@.len() == 4 * k,
            forall|j: int| 0 <= j < 4 * k ==> out@[j] == all[j],
        decreases n - k,
    {
        let ghost before = out@;
        let i = 4 * k;
        put_pixel(&mut out, rgba[i + 3], rgba[i], rgba[i + 1], rgba[i + 2]);
        proof {
            assert forall|j: int| 0 <= j < 4 * (k + 1) implies out@[j] == all[j] by {
                if j < 4 * k {
                    assert(out@[j] == before[j]);
                } else {
                    assert(j % 4 == j - 4 * k);
                    assert(out@[j] == seq![
                        rgba@[4 * k + 3],
                        rgba@[4 * k + 0],
                        rgba@[4 * k + 1],
                        rgba@[4 * k + 2],
                    ][j - 4 * k]);
                }
            }
        }
        k += 1;
    }
    assert(out@ =~= all);
    out
}

/// An icon for a panel.
#[derive(Debug)]
pub struct Pixmap {
    pub width: u32,
    pub height: u32,
    pub data: Vec<u8>,
}

/// The model of [`Pixmap`].
#[verifier::ext_equal]
pub struct PixmapModel {
    pub width: u32,
    pub height: u32,
    pub data: Seq<u8>,
}

impl View for Pixmap {
    type V = PixmapModel;

    open spec fn view(&self) -> PixmapModel {
        PixmapModel { width: self.width, height: self.height, data: self.data@ }
    }
}

impl DeepView for Pixmap {
    type V = PixmapModel;

    open spec fn deep_view(&self) -> PixmapModel {
        self@
    }
}

/// The image `f` times smaller, where that comes out even.
pub open spec fn pixmap_at(rgba: Seq<u8>, w: u32, h: u32, f: u32) -> Option<PixmapModel> {
    if f == 1 {
        Some(PixmapModel { width: w, height: h, data: alpha_first(rgba) })
    } else if w % f == 0 && h % f == 0 {
        Some(
            PixmapModel {
                width: w / f,
                height: h / f,
                data: alpha_first(downscaled(rgba, w as int, h as int, f as int)),
            },
        )
    } else {
        None
    }
}

pub open spec fn with_pixmap(v: Seq<PixmapModel>, p: Option<PixmapModel>) -> Seq<PixmapModel> {
    match p {
        Some(p) => v.push(p),
        None => v,
    }
}

/// The sizes that a panel may choose from, the smallest first.
pub open spec fn pixmap_list(rgba: Seq<u8>, w: u32, h: u32) -> Seq<PixmapModel> {
    with_pixmap(
        with_pixmap(
            with_pixmap(seq![], pixmap_at(rgba, w, h, 8)),
            pixmap_at(rgba, w, h, 4),
        ),
        pixmap_at(rgba, w, h, 1),
    )
}

fn push_pixmap(v: &mut Vec<Pixmap>, rgba: &Vec<u8>, w: u32, h: u32, f: u32)
    requires
        f == 8 || f == 4 || f == 1,
        w * h * 4 <= rgba@.len(),
    ensures
        final(v).deep_view() == with_pixmap(
            old(v).deep_view(),
            pixmap_at(rgba@, w, h, f),
        ),
{
    let ghost before = v.deep_view();
    if f == 1 {
        let p = Pixmap { width: w, height: h, data: to_argb(rgba) };
        v.push(p);
        assert(v.deep_view() =~= before.push(p@));
    } else if w % f == 0 && h % f == 0 {
        let small = box_downscale(rgba, w as usize, h as usize, f as usize);
        let p = Pixmap { width: w / f, height: h / f, data: to_argb(&small) };
        v.push(p);
        assert(v.deep_view() =~= before.push(p@));
    }
}

/// An RGBA image as icons for a panel, in several sizes so that the panel need
/// not scale.
pub fn pixmaps(rgba: &Vec<u8>, w: u32, h: u32) -> (r: Vec<Pixmap>)
    requires
        w * h * 4 <= rgba@.len(),
    ensures
        r.deep_view() == pixmap_list(rgba@, w, h),
{
    let mut v: Vec<Pixmap> = Vec::new();
    assert(v.deep_view() =~= seq![]);
    push_pixmap(&mut v, rgba, w, h, 8);
    push_pixmap(&mut v, rgba, w, h, 4);
    push_pixmap(&mut v, rgba, w, h, 1);
    v
}

// ------------------------------------------------------------------------ icons

/// An outline over two colours; grey where it is disabled.
pub open spec fn gradient_svg(paths: Seq<char>, a: Seq<char>, b: Seq<char>, enabled: bool) -> Seq<char> {
    "<svg xmlns=\"http://www.w3.org/2000/svg\" viewBox=\"0 0 32 32\">\n<defs><linearGradient id=\"g\" x1=\"0\" y1=\"0\" x2=\"1\" y2=\"1\">\n<stop offset=\"0\" stop-color=\""@
        + a + "\"/><stop offset=\"1\" stop-color=\""@ + b
        + "\"/></linearGradient></defs>\n<g fill=\"none\" stroke=\""@ + (if enabled {
        "url(#g)"@
    } else {
        "#B0B0B0"@
    })
        + "\" stroke-width=\"1.8\" stroke-linecap=\"round\" stroke-linejoin=\"round\">"@ + paths
        + "</g></svg>"@
}

/// A small icon around `body`.
pub open spec fn flat_svg(body: Seq<char>) -> Seq<char> {
    "<svg xmlns=\"http://www.w3.org/2000/svg\" viewBox=\"0 0 16 16\">"@ + body + "</svg>"@
}

/// A brand mark around `body`.
pub open spec fn brand_svg(body: Seq<char>) -> Seq<char> {
    "<svg xmlns=\"http://www.w3.org/2000/svg\" viewBox=\"0 0 32 32\">"@ + body + "</svg>"@
}

fn gradient_icon(paths: &str, a: &str, b: &str, enabled: bool) -> (r: String)
    ensures
        r@ == gradient_svg(paths@, a@, b@, enabled),
{
    let stroke = if enabled {
        "url(#g)"
    } else {
        "#B0B0B0"
    };
    let x = cat3(
        "<svg xmlns=\"http://www.w3.org/2000/svg\" viewBox=\"0 0 32 32\">\n<defs><linearGradient id=\"g\" x1=\"0\" y1=\"0\" x2=\"1\" y2=\"1\">\n<stop offset=\"0\" stop-color=\"",
        a,
        "\"/><stop offset=\"1\" stop-color=\"",
    );
    let y = cat3(
        &x,
        b,
        "\"/></linearGradient></defs>\n<g fill=\"none\" stroke=\"",
    );
    let z = cat3(
        &y,
        stroke,
        "\" stroke-width=\"1.8\" stroke-linecap=\"round\" stroke-linejoin=\"round\">",
    );
    cat3(&z, paths, "</g></svg>")
}

fn flat_icon(body: &str) -> (r: String)
    ensures
        r@ == flat_svg(body@),
{
    cat3("<svg xmlns=\"http://www.w3.org/2000/svg\" viewBox=\"0 0 16 16\">", body, "</svg>")
}

fn brand_icon(body: &str) -> (r: String)
    ensures
        r@ == brand_svg(body@),
{
    cat3("<svg xmlns=\"http://www.w3.org/2000/svg\" viewBox=\"0 0 32 32\">", body, "</svg>")
}

/// Two hexadecimal digits in upper case.
pub open spec fn hex_byte(n: int) -> Seq<char> {
    seq![upper_hex(n / 16), upper_hex(n % 16)]
}

pub open spec fn upper_hex(n: int) -> char {
    if n < 10 {
        ('0' as int + n) as char
    } else {
        ('A' as int + (n - 10)) as char
    }
}

fn hex(n: u32) -> (r: char)
    requires
        n < 16,
    ensures
        r == upper_hex(n as int),
{
    match n {
        0 => '0',
        1 => '1',
        2 => '2',
        3 => '3',
        4 => '4',
        5 => '5',
        6 => '6',
        7 => '7',
        8 => '8',
        9 => '9',
        10 => 'A',
        11 => 'B',
        12 => 'C',
        13 => 'D',
        14 => 'E',
        _ => 'F',
    }
}

/// A colour as SVG spells it.
pub open spec fn color_code(r: int, g: int, b: int) -> Seq<char> {
    "#"@ + hex_byte(r) + hex_byte(g) + hex_byte(b)
}

fn color(r: u32, g: u32, b: u32) -> (s: String)
    requires
        r < 256,
        g < 256,
        b < 256,
    ensures
        s@ == color_code(r as int, g as int, b as int),
{
    let mut s = "#".to_owned();
    let ghost start = s@;
    s.push(hex(r / 16));
    s.push(hex(r % 16));
    s.push(hex(g / 16));
    s.push(hex(g % 16));
    s.push(hex(b / 16));
    s.push(hex(b % 16));
    assert(s@ =~= color_code(r as int, g as int, b as int));
    s
}

/// A lighter shade of a channel, for the front of a folder.
pub open spec fn tint(v: int) -> int {
    v + (255 - v) * 45 / 100
}

/// A darker shade of a channel, for the outline.
pub open spec fn shade(v: int) -> int {
    v * 65 / 100
}

pub open spec fn red_of(rgb: u32) -> int {
    (rgb as int / 65536) % 256
}

pub open spec fn green_of(rgb: u32) -> int {
    (rgb as int / 256) % 256
}

pub open spec fn blue_of(rgb: u32) -> int {
    rgb as int % 256
}

/// The folder of a queue in its own colour, in three tones.
pub open spec fn folder_svg(rgb: u32) -> Seq<char> {
    let (r, g, b) = (red_of(rgb), green_of(rgb), blue_of(rgb));
    let dark = color_code(shade(r), shade(g), shade(b));
    "<path d=\"M2 5 A1 1 0 0 1 3 4 h2.8 l1.2 1.3 h5 A1 1 0 0 1 13 6.3 v1 h-11 z\" fill=\""@
        + color_code(r, g, b) + "\" stroke=\""@ + dark
        + "\" stroke-width=\"0.7\"/><path d=\"M2 8 h11 v4.5 a1 1 0 0 1 -1 1 h-9 a1 1 0 0 1 -1 -1 z\" fill=\""@
        + color_code(tint(r), tint(g), tint(b)) + "\" stroke=\""@ + dark
        + "\" stroke-width=\"0.7\"/>"@
}

fn folder(rgb: u32) -> (s: String)
    ensures
        s@ == folder_svg(rgb),
{
    let r: u32 = (rgb / 65536) % 256;
    let g: u32 = (rgb / 256) % 256;
    let b: u32 = rgb % 256;
    let dark = color(r * 65 / 100, g * 65 / 100, b * 65 / 100);
    let light = color(
        r + (255 - r) * 45 / 100,
        g + (255 - g) * 45 / 100,
        b + (255 - b) * 45 / 100,
    );
    let plain = color(r, g, b);
    let x = cat3(
        "<path d=\"M2 5 A1 1 0 0 1 3 4 h2.8 l1.2 1.3 h5 A1 1 0 0 1 13 6.3 v1 h-11 z\" fill=\"",
        &plain,
        "\" stroke=\"",
    );
    let y = cat3(
        &x,
        &dark,
        "\" stroke-width=\"0.7\"/><path d=\"M2 8 h11 v4.5 a1 1 0 0 1 -1 1 h-9 a1 1 0 0 1 -1 -1 z\" fill=\"",
    );
    let z = cat3(&y, &light, "\" stroke=\"");
    cat3(&z, &dark, "\" stroke-width=\"0.7\"/>")
}

/// The folder of a queue; one without a colour has the stock folder.
pub fn queue_folder(rgb: Option<u32>) -> (r: String)
    ensures
        r@ == (match rgb {
            Some(c) => flat_svg(folder_svg(c)),
            None => flat_svg(stock_folder()),
        }),
{
    match rgb {
        Some(c) => flat_icon(&folder(c)),
        None => queues(),
    }
}

/// The square before a branch of the tree.
pub open spec fn expander_svg(open: bool) -> Seq<char> {
    "<rect x=\"2.5\" y=\"2.5\" width=\"11\" height=\"11\" fill=\"#FFFFFF\" stroke=\"#9AA8B8\" stroke-width=\"0.9\"/>"@
        + (if open {
        "<path d=\"M4 8 h8\" stroke=\"#5A5A5A\" stroke-width=\"1.2\"/>"@
    } else {
        "<path d=\"M4 8 h8 M8 4 v8\" stroke=\"#5A5A5A\" stroke-width=\"1.2\"/>"@
    })
}

pub fn expander(open: bool) -> (r: String)
    ensures
        r@ == flat_svg(expander_svg(open)),
{
    flat_icon(
        &cat(
            "<rect x=\"2.5\" y=\"2.5\" width=\"11\" height=\"11\" fill=\"#FFFFFF\" stroke=\"#9AA8B8\" stroke-width=\"0.9\"/>",
            if open {
                "<path d=\"M4 8 h8\" stroke=\"#5A5A5A\" stroke-width=\"1.2\"/>"
            } else {
                "<path d=\"M4 8 h8 M8 4 v8\" stroke=\"#5A5A5A\" stroke-width=\"1.2\"/>"
            },
        ),
    )
}

/// A plus.
pub fn add_url(enabled: bool) -> (r: String)
    ensures
        r@ == gradient_svg("<path d=\"M16 8 v16 M8 16 h16\"/>"@, "#2FA84F"@, "#69B7E8"@, enabled),
{
    gradient_icon("<path d=\"M16 8 v16 M8 16 h16\"/>", "#2FA84F", "#69B7E8", enabled)
}

/// An arrow down in a circle.
pub fn resume(enabled: bool) -> (r: String)
    ensures
        r@ == gradient_svg("<circle cx=\"16\" cy=\"16\" r=\"11\"/><path d=\"M16 10 v9 M12 15.5 L16 19.5 L20 15.5\"/>"@, "#38B6A0"@, "#9A7FE8"@, enabled),
{
    gradient_icon("<circle cx=\"16\" cy=\"16\" r=\"11\"/><path d=\"M16 10 v9 M12 15.5 L16 19.5 L20 15.5\"/>", "#38B6A0", "#9A7FE8", enabled)
}

/// A square in a circle.
pub fn stop(enabled: bool) -> (r: String)
    ensures
        r@ == gradient_svg("<circle cx=\"16\" cy=\"16\" r=\"11\"/><rect x=\"12\" y=\"12\" width=\"8\" height=\"8\" rx=\"1\"/>"@, "#8A97A8"@, "#B08BD8"@, enabled),
{
    gradient_icon("<circle cx=\"16\" cy=\"16\" r=\"11\"/><rect x=\"12\" y=\"12\" width=\"8\" height=\"8\" rx=\"1\"/>", "#8A97A8", "#B08BD8", enabled)
}

/// A raised hand.
pub fn stop_all(enabled: bool) -> (r: String)
    ensures
        r@ == gradient_svg("<path d=\"M11 15 V7.5 a1.6 1.6 0 0 1 3.2 0 V13 M14.2 13 V6.4 a1.6 1.6 0 0 1 3.2 0 V13 M17.4 13 V7.5 a1.6 1.6 0 0 1 3.2 0 V14 M20.6 14 v-3.4 a1.6 1.6 0 0 1 3.2 0 V19 a7.5 7.5 0 0 1 -7.5 7.5 h-1.4 a7.3 7.3 0 0 1 -6 -3.2 L6 19.2 a2 2 0 0 1 3.2 -2.3 l1.8 2.3\"/>"@, "#8FA0B8"@, "#9A7FE8"@, enabled),
{
    gradient_icon("<path d=\"M11 15 V7.5 a1.6 1.6 0 0 1 3.2 0 V13 M14.2 13 V6.4 a1.6 1.6 0 0 1 3.2 0 V13 M17.4 13 V7.5 a1.6 1.6 0 0 1 3.2 0 V14 M20.6 14 v-3.4 a1.6 1.6 0 0 1 3.2 0 V19 a7.5 7.5 0 0 1 -7.5 7.5 h-1.4 a7.3 7.3 0 0 1 -6 -3.2 L6 19.2 a2 2 0 0 1 3.2 -2.3 l1.8 2.3\"/>", "#8FA0B8", "#9A7FE8", enabled)
}

/// A bin.
pub fn delete(enabled: bool) -> (r: String)
    ensures
        r@ == gradient_svg("<path d=\"M9 11 h14 M13 11 V9 a1.5 1.5 0 0 1 1.5 -1.5 h3 A1.5 1.5 0 0 1 19 9 v2 M10.5 11 l1 13.5 a1.8 1.8 0 0 0 1.8 1.6 h5.4 a1.8 1.8 0 0 0 1.8 -1.6 L21.5 11 M14 15 v7 M18 15 v7\"/>"@, "#9A7FE8"@, "#D86FA8"@, enabled),
{
    gradient_icon("<path d=\"M9 11 h14 M13 11 V9 a1.5 1.5 0 0 1 1.5 -1.5 h3 A1.5 1.5 0 0 1 19 9 v2 M10.5 11 l1 13.5 a1.8 1.8 0 0 0 1.8 1.6 h5.4 a1.8 1.8 0 0 0 1.8 -1.6 L21.5 11 M14 15 v7 M18 15 v7\"/>", "#9A7FE8", "#D86FA8", enabled)
}

/// A bin with a tick.
pub fn delete_completed(enabled: bool) -> (r: String)
    ensures
        r@ == gradient_svg("<path d=\"M9 10 h14 M13 10 V8.4 a1.4 1.4 0 0 1 1.4 -1.4 h3.2 A1.4 1.4 0 0 1 19 8.4 V10 M10.5 10 l1 14.5 a1.8 1.8 0 0 0 1.8 1.6 h5.4 a1.8 1.8 0 0 0 1.8 -1.6 L21.5 10 M12.8 15.5 l2.6 2.6 4.4 -4.8\"/>"@, "#D86FA8"@, "#9A7FE8"@, enabled),
{
    gradient_icon("<path d=\"M9 10 h14 M13 10 V8.4 a1.4 1.4 0 0 1 1.4 -1.4 h3.2 A1.4 1.4 0 0 1 19 8.4 V10 M10.5 10 l1 14.5 a1.8 1.8 0 0 0 1.8 1.6 h5.4 a1.8 1.8 0 0 0 1.8 -1.6 L21.5 10 M12.8 15.5 l2.6 2.6 4.4 -4.8\"/>", "#D86FA8", "#9A7FE8", enabled)
}

/// A cog.
pub fn options(enabled: bool) -> (r: String)
    ensures
        r@ == gradient_svg("<circle cx=\"16\" cy=\"16\" r=\"4\"/><path d=\"M16 5.5 l1.6 3.1 3.4 -0.9 0.9 3.4 3.1 1.6 -1.6 3.3 1.6 3.3 -3.1 1.6 -0.9 3.4 -3.4 -0.9 -1.6 3.1 -1.6 -3.1 -3.4 0.9 -0.9 -3.4 -3.1 -1.6 1.6 -3.3 -1.6 -3.3 3.1 -1.6 0.9 -3.4 3.4 0.9 z\"/>"@, "#E89A4F"@, "#9A7FE8"@, enabled),
{
    gradient_icon("<circle cx=\"16\" cy=\"16\" r=\"4\"/><path d=\"M16 5.5 l1.6 3.1 3.4 -0.9 0.9 3.4 3.1 1.6 -1.6 3.3 1.6 3.3 -3.1 1.6 -0.9 3.4 -3.4 -0.9 -1.6 3.1 -1.6 -3.1 -3.4 0.9 -0.9 -3.4 -3.1 -1.6 1.6 -3.3 -1.6 -3.3 3.1 -1.6 0.9 -3.4 3.4 0.9 z\"/>", "#E89A4F", "#9A7FE8", enabled)
}

/// An alarm clock.
pub fn scheduler(enabled: bool) -> (r: String)
    ensures
        r@ == gradient_svg("<circle cx=\"16\" cy=\"17\" r=\"9.5\"/><path d=\"M16 12 v5 l3.5 2.5 M8 8.5 L10.5 6 M24 8.5 L21.5 6\"/>"@, "#E86F9A"@, "#E8A44F"@, enabled),
{
    gradient_icon("<circle cx=\"16\" cy=\"17\" r=\"9.5\"/><path d=\"M16 12 v5 l3.5 2.5 M8 8.5 L10.5 6 M24 8.5 L21.5 6\"/>", "#E86F9A", "#E8A44F", enabled)
}

/// A stack with an arrow.
pub fn start_queue(enabled: bool) -> (r: String)
    ensures
        r@ == gradient_svg("<rect x=\"6.5\" y=\"6.5\" width=\"14\" height=\"14\" rx=\"2.5\"/><path d=\"M11 25.5 h9 a5.5 5.5 0 0 0 5.5 -5.5 v-9 M13.5 11 v6.5 M10 14 l3.5 3.6 3.5 -3.6\"/>"@, "#4F8FE8"@, "#38B6A0"@, enabled),
{
    gradient_icon("<rect x=\"6.5\" y=\"6.5\" width=\"14\" height=\"14\" rx=\"2.5\"/><path d=\"M11 25.5 h9 a5.5 5.5 0 0 0 5.5 -5.5 v-9 M13.5 11 v6.5 M10 14 l3.5 3.6 3.5 -3.6\"/>", "#4F8FE8", "#38B6A0", enabled)
}

/// A stack with a square.
pub fn stop_queue(enabled: bool) -> (r: String)
    ensures
        r@ == gradient_svg("<rect x=\"6.5\" y=\"6.5\" width=\"14\" height=\"14\" rx=\"2.5\"/><path d=\"M11 25.5 h9 a5.5 5.5 0 0 0 5.5 -5.5 v-9\"/><rect x=\"10.5\" y=\"10.5\" width=\"6\" height=\"6\" rx=\"1\"/>"@, "#E86F9A"@, "#B08BD8"@, enabled),
{
    gradient_icon("<rect x=\"6.5\" y=\"6.5\" width=\"14\" height=\"14\" rx=\"2.5\"/><path d=\"M11 25.5 h9 a5.5 5.5 0 0 0 5.5 -5.5 v-9\"/><rect x=\"10.5\" y=\"10.5\" width=\"6\" height=\"6\" rx=\"1\"/>", "#E86F9A", "#B08BD8", enabled)
}

/// A puzzle piece.
pub fn extensions(enabled: bool) -> (r: String)
    ensures
        r@ == gradient_svg("<path d=\"M13 6.5 h3.4 a2.4 2.4 0 0 1 0 4.8 h3.6 a1.4 1.4 0 0 1 1.4 1.4 v3.6 a2.4 2.4 0 0 1 4.8 0 v3.4 a1.4 1.4 0 0 1 -1.4 1.4 h-3.4 v3.4 a1.4 1.4 0 0 1 -1.4 1.4 H8.4 A1.4 1.4 0 0 1 7 24.5 V13 a1.4 1.4 0 0 1 1.4 -1.4 H12 A2.4 2.4 0 0 1 13 6.5 z\"/>"@, "#4F8FE8"@, "#9A7FE8"@, enabled),
{
    gradient_icon("<path d=\"M13 6.5 h3.4 a2.4 2.4 0 0 1 0 4.8 h3.6 a1.4 1.4 0 0 1 1.4 1.4 v3.6 a2.4 2.4 0 0 1 4.8 0 v3.4 a1.4 1.4 0 0 1 -1.4 1.4 h-3.4 v3.4 a1.4 1.4 0 0 1 -1.4 1.4 H8.4 A1.4 1.4 0 0 1 7 24.5 V13 a1.4 1.4 0 0 1 1.4 -1.4 H12 A2.4 2.4 0 0 1 13 6.5 z\"/>", "#4F8FE8", "#9A7FE8", enabled)
}

/// The mark of Chrome.
pub fn browser_chrome() -> (r: String)
    ensures
        r@ == brand_svg("<path d=\"M16 16 L1 16 A15 15 0 0 1 23.5 3.01 Z\" fill=\"#EA4335\"/>\n<path d=\"M16 16 L23.5 3.01 A15 15 0 0 1 23.5 28.99 Z\" fill=\"#FBBC04\"/>\n<path d=\"M16 16 L23.5 28.99 A15 15 0 0 1 1 16 Z\" fill=\"#34A853\"/>\n<circle cx=\"16\" cy=\"16\" r=\"7.6\" fill=\"#FFFFFF\"/><circle cx=\"16\" cy=\"16\" r=\"6\" fill=\"#4285F4\"/>"@),
{
    brand_icon("<path d=\"M16 16 L1 16 A15 15 0 0 1 23.5 3.01 Z\" fill=\"#EA4335\"/>\n<path d=\"M16 16 L23.5 3.01 A15 15 0 0 1 23.5 28.99 Z\" fill=\"#FBBC04\"/>\n<path d=\"M16 16 L23.5 28.99 A15 15 0 0 1 1 16 Z\" fill=\"#34A853\"/>\n<circle cx=\"16\" cy=\"16\" r=\"7.6\" fill=\"#FFFFFF\"/><circle cx=\"16\" cy=\"16\" r=\"6\" fill=\"#4285F4\"/>")
}

/// The mark of other Chromium browsers.
pub fn browser_chromium() -> (r: String)
    ensures
        r@ == brand_svg("<path d=\"M16 16 L1 16 A15 15 0 0 1 23.5 3.01 Z\" fill=\"#7C99B8\"/>\n<path d=\"M16 16 L23.5 3.01 A15 15 0 0 1 23.5 28.99 Z\" fill=\"#A8C0D6\"/>\n<path d=\"M16 16 L23.5 28.99 A15 15 0 0 1 1 16 Z\" fill=\"#5B7B9C\"/>\n<circle cx=\"16\" cy=\"16\" r=\"7.6\" fill=\"#FFFFFF\"/><circle cx=\"16\" cy=\"16\" r=\"6\" fill=\"#33648F\"/>"@),
{
    brand_icon("<path d=\"M16 16 L1 16 A15 15 0 0 1 23.5 3.01 Z\" fill=\"#7C99B8\"/>\n<path d=\"M16 16 L23.5 3.01 A15 15 0 0 1 23.5 28.99 Z\" fill=\"#A8C0D6\"/>\n<path d=\"M16 16 L23.5 28.99 A15 15 0 0 1 1 16 Z\" fill=\"#5B7B9C\"/>\n<circle cx=\"16\" cy=\"16\" r=\"7.6\" fill=\"#FFFFFF\"/><circle cx=\"16\" cy=\"16\" r=\"6\" fill=\"#33648F\"/>")
}

/// The mark of Safari.
pub fn browser_safari() -> (r: String)
    ensures
        r@ == brand_svg("<defs><linearGradient id=\"s\" x1=\"0\" y1=\"0\" x2=\"0\" y2=\"1\">\n<stop offset=\"0\" stop-color=\"#3DB4F2\"/><stop offset=\"1\" stop-color=\"#0F6FD8\"/></linearGradient></defs>\n<circle cx=\"16\" cy=\"16\" r=\"15\" fill=\"url(#s)\"/><circle cx=\"16\" cy=\"16\" r=\"12.2\" fill=\"#F4F7FA\"/>\n<path d=\"M16 4.4 v2 M16 25.6 v2 M4.4 16 h2 M25.6 16 h2\" stroke=\"#7E93A8\" stroke-width=\"1.1\" stroke-linecap=\"round\"/>\n<path d=\"M22.6 9.4 L17.6 17.6 9.4 22.6 14.4 14.4 z\" fill=\"#F04B3C\"/>\n<path d=\"M9.4 22.6 L14.4 14.4 17.6 17.6 z\" fill=\"#E9EEF3\"/>"@),
{
    brand_icon("<defs><linearGradient id=\"s\" x1=\"0\" y1=\"0\" x2=\"0\" y2=\"1\">\n<stop offset=\"0\" stop-color=\"#3DB4F2\"/><stop offset=\"1\" stop-color=\"#0F6FD8\"/></linearGradient></defs>\n<circle cx=\"16\" cy=\"16\" r=\"15\" fill=\"url(#s)\"/><circle cx=\"16\" cy=\"16\" r=\"12.2\" fill=\"#F4F7FA\"/>\n<path d=\"M16 4.4 v2 M16 25.6 v2 M4.4 16 h2 M25.6 16 h2\" stroke=\"#7E93A8\" stroke-width=\"1.1\" stroke-linecap=\"round\"/>\n<path d=\"M22.6 9.4 L17.6 17.6 9.4 22.6 14.4 14.4 z\" fill=\"#F04B3C\"/>\n<path d=\"M9.4 22.6 L14.4 14.4 17.6 17.6 z\" fill=\"#E9EEF3\"/>")
}

/// All downloads.
pub fn folder_all() -> (r: String)
    ensures
        r@ == flat_svg("<path d=\"M1 3.5 A1.2 1.2 0 0 1 2.2 2.3 h3.4 l1.4 1.6 h6.8 A1.2 1.2 0 0 1 15 5.1 v7.4 a1.2 1.2 0 0 1 -1.2 1.2 h-11.6 A1.2 1.2 0 0 1 1 12.5 z\" fill=\"#F6D97A\" stroke=\"#C9A93F\" stroke-width=\"0.8\"/>"@),
{
    flat_icon("<path d=\"M1 3.5 A1.2 1.2 0 0 1 2.2 2.3 h3.4 l1.4 1.6 h6.8 A1.2 1.2 0 0 1 15 5.1 v7.4 a1.2 1.2 0 0 1 -1.2 1.2 h-11.6 A1.2 1.2 0 0 1 1 12.5 z\" fill=\"#F6D97A\" stroke=\"#C9A93F\" stroke-width=\"0.8\"/>")
}

/// What is drawn for: archives.
pub open spec fn archive_body() -> Seq<char> {
    "<rect x=\"3\" y=\"1.5\" width=\"10\" height=\"13\" rx=\"1.2\" fill=\"#EED9A0\" stroke=\"#B9924A\" stroke-width=\"0.8\"/><path d=\"M8 2 v2 M8 5 v2 M8 8 v2\" stroke=\"#8A6A2F\" stroke-width=\"1.6\"/><rect x=\"6.7\" y=\"10\" width=\"2.6\" height=\"3\" fill=\"#8A6A2F\"/>"@
}

/// Archives.
pub fn folder_compressed() -> (r: String)
    ensures
        r@ == flat_svg(archive_body()),
{
    flat_icon("<rect x=\"3\" y=\"1.5\" width=\"10\" height=\"13\" rx=\"1.2\" fill=\"#EED9A0\" stroke=\"#B9924A\" stroke-width=\"0.8\"/><path d=\"M8 2 v2 M8 5 v2 M8 8 v2\" stroke=\"#8A6A2F\" stroke-width=\"1.6\"/><rect x=\"6.7\" y=\"10\" width=\"2.6\" height=\"3\" fill=\"#8A6A2F\"/>")
}

/// What is drawn for: documents.
pub open spec fn document_body() -> Seq<char> {
    "<path d=\"M4 1.5 h6 l3 3 v10 h-9 z\" fill=\"#FFFFFF\" stroke=\"#8AA0B8\" stroke-width=\"0.9\"/><path d=\"M10 1.5 v3 h3\" fill=\"none\" stroke=\"#8AA0B8\" stroke-width=\"0.9\"/><path d=\"M5.5 7 h5 M5.5 9 h5 M5.5 11 h3.5\" stroke=\"#9AB0C8\" stroke-width=\"0.9\"/>"@
}

/// Documents.
pub fn folder_documents() -> (r: String)
    ensures
        r@ == flat_svg(document_body()),
{
    flat_icon("<path d=\"M4 1.5 h6 l3 3 v10 h-9 z\" fill=\"#FFFFFF\" stroke=\"#8AA0B8\" stroke-width=\"0.9\"/><path d=\"M10 1.5 v3 h3\" fill=\"none\" stroke=\"#8AA0B8\" stroke-width=\"0.9\"/><path d=\"M5.5 7 h5 M5.5 9 h5 M5.5 11 h3.5\" stroke=\"#9AB0C8\" stroke-width=\"0.9\"/>")
}

/// What is drawn for: music.
pub open spec fn music_body() -> Seq<char> {
    "<path d=\"M6 12.2 V4 l7 -1.6 v8.4\" fill=\"none\" stroke=\"#4F6FD8\" stroke-width=\"1.2\"/><circle cx=\"4.6\" cy=\"12.4\" r=\"1.9\" fill=\"#4F6FD8\"/><circle cx=\"11.6\" cy=\"11\" r=\"1.9\" fill=\"#4F6FD8\"/>"@
}

/// Music.
pub fn folder_music() -> (r: String)
    ensures
        r@ == flat_svg(music_body()),
{
    flat_icon("<path d=\"M6 12.2 V4 l7 -1.6 v8.4\" fill=\"none\" stroke=\"#4F6FD8\" stroke-width=\"1.2\"/><circle cx=\"4.6\" cy=\"12.4\" r=\"1.9\" fill=\"#4F6FD8\"/><circle cx=\"11.6\" cy=\"11\" r=\"1.9\" fill=\"#4F6FD8\"/>")
}

/// What is drawn for: programs.
pub open spec fn program_body() -> Seq<char> {
    "<rect x=\"1.5\" y=\"2.5\" width=\"13\" height=\"11\" rx=\"1\" fill=\"#EAF2FB\" stroke=\"#5A7A9A\" stroke-width=\"0.9\"/><rect x=\"1.5\" y=\"2.5\" width=\"13\" height=\"3\" fill=\"#5A8FD8\"/><circle cx=\"3.2\" cy=\"4\" r=\"0.6\" fill=\"#fff\"/><path d=\"M4.5 9 l2 -1.6 v3.2 z\" fill=\"#3A9E3A\"/><rect x=\"8\" y=\"8\" width=\"4\" height=\"1.4\" fill=\"#5A7A9A\"/>"@
}

/// Programs.
pub fn folder_programs() -> (r: String)
    ensures
        r@ == flat_svg(program_body()),
{
    flat_icon("<rect x=\"1.5\" y=\"2.5\" width=\"13\" height=\"11\" rx=\"1\" fill=\"#EAF2FB\" stroke=\"#5A7A9A\" stroke-width=\"0.9\"/><rect x=\"1.5\" y=\"2.5\" width=\"13\" height=\"3\" fill=\"#5A8FD8\"/><circle cx=\"3.2\" cy=\"4\" r=\"0.6\" fill=\"#fff\"/><path d=\"M4.5 9 l2 -1.6 v3.2 z\" fill=\"#3A9E3A\"/><rect x=\"8\" y=\"8\" width=\"4\" height=\"1.4\" fill=\"#5A7A9A\"/>")
}

/// What is drawn for: videos.
pub open spec fn video_body() -> Seq<char> {
    "<rect x=\"1.5\" y=\"3\" width=\"13\" height=\"10\" rx=\"1\" fill=\"#3A4A6A\" stroke=\"#26334A\" stroke-width=\"0.8\"/><rect x=\"3\" y=\"4.5\" width=\"2\" height=\"1.6\" fill=\"#fff\"/><rect x=\"3\" y=\"7.2\" width=\"2\" height=\"1.6\" fill=\"#fff\"/><rect x=\"3\" y=\"9.9\" width=\"2\" height=\"1.6\" fill=\"#fff\"/><rect x=\"11\" y=\"4.5\" width=\"2\" height=\"1.6\" fill=\"#fff\"/><rect x=\"11\" y=\"7.2\" width=\"2\" height=\"1.6\" fill=\"#fff\"/><rect x=\"11\" y=\"9.9\" width=\"2\" height=\"1.6\" fill=\"#fff\"/><path d=\"M7 6 l3 2 -3 2 z\" fill=\"#fff\"/>"@
}

/// Videos.
pub fn folder_video() -> (r: String)
    ensures
        r@ == flat_svg(video_body()),
{
    flat_icon("<rect x=\"1.5\" y=\"3\" width=\"13\" height=\"10\" rx=\"1\" fill=\"#3A4A6A\" stroke=\"#26334A\" stroke-width=\"0.8\"/><rect x=\"3\" y=\"4.5\" width=\"2\" height=\"1.6\" fill=\"#fff\"/><rect x=\"3\" y=\"7.2\" width=\"2\" height=\"1.6\" fill=\"#fff\"/><rect x=\"3\" y=\"9.9\" width=\"2\" height=\"1.6\" fill=\"#fff\"/><rect x=\"11\" y=\"4.5\" width=\"2\" height=\"1.6\" fill=\"#fff\"/><rect x=\"11\" y=\"7.2\" width=\"2\" height=\"1.6\" fill=\"#fff\"/><rect x=\"11\" y=\"9.9\" width=\"2\" height=\"1.6\" fill=\"#fff\"/><path d=\"M7 6 l3 2 -3 2 z\" fill=\"#fff\"/>")
}

/// Unfinished downloads.
pub fn folder_unfinished() -> (r: String)
    ensures
        r@ == flat_svg("<path d=\"M1 4 A1.2 1.2 0 0 1 2.2 2.8 h3.2 l1.3 1.5 h6.1 A1.2 1.2 0 0 1 14 5.5 v7 a1.2 1.2 0 0 1 -1.2 1.2 h-10.6 A1.2 1.2 0 0 1 1 12.5 z\" fill=\"#D8E8C8\" stroke=\"#8AA86A\" stroke-width=\"0.8\"/><path d=\"M8 6 v4 M6.2 8.4 L8 10.3 9.8 8.4\" fill=\"none\" stroke=\"#3A9E3A\" stroke-width=\"1.3\"/>"@),
{
    flat_icon("<path d=\"M1 4 A1.2 1.2 0 0 1 2.2 2.8 h3.2 l1.3 1.5 h6.1 A1.2 1.2 0 0 1 14 5.5 v7 a1.2 1.2 0 0 1 -1.2 1.2 h-10.6 A1.2 1.2 0 0 1 1 12.5 z\" fill=\"#D8E8C8\" stroke=\"#8AA86A\" stroke-width=\"0.8\"/><path d=\"M8 6 v4 M6.2 8.4 L8 10.3 9.8 8.4\" fill=\"none\" stroke=\"#3A9E3A\" stroke-width=\"1.3\"/>")
}

/// Finished downloads.
pub fn folder_finished() -> (r: String)
    ensures
        r@ == flat_svg("<path d=\"M1 4 A1.2 1.2 0 0 1 2.2 2.8 h3.2 l1.3 1.5 h6.1 A1.2 1.2 0 0 1 14 5.5 v7 a1.2 1.2 0 0 1 -1.2 1.2 h-10.6 A1.2 1.2 0 0 1 1 12.5 z\" fill=\"#EAF2FB\" stroke=\"#8AA0B8\" stroke-width=\"0.8\"/><path d=\"M4.5 8.5 l2.3 2.3 4.4 -4.8\" fill=\"none\" stroke=\"#2E7D32\" stroke-width=\"1.6\"/>"@),
{
    flat_icon("<path d=\"M1 4 A1.2 1.2 0 0 1 2.2 2.8 h3.2 l1.3 1.5 h6.1 A1.2 1.2 0 0 1 14 5.5 v7 a1.2 1.2 0 0 1 -1.2 1.2 h-10.6 A1.2 1.2 0 0 1 1 12.5 z\" fill=\"#EAF2FB\" stroke=\"#8AA0B8\" stroke-width=\"0.8\"/><path d=\"M4.5 8.5 l2.3 2.3 4.4 -4.8\" fill=\"none\" stroke=\"#2E7D32\" stroke-width=\"1.6\"/>")
}

/// A globe.
pub fn grabber() -> (r: String)
    ensures
        r@ == flat_svg("<circle cx=\"8\" cy=\"8\" r=\"6.2\" fill=\"#EAF6FF\" stroke=\"#3A7ACD\" stroke-width=\"0.9\"/><path d=\"M2 8 h12 M8 1.8 a9.5 9.5 0 0 1 0 12.4 M8 1.8 a9.5 9.5 0 0 0 0 12.4\" fill=\"none\" stroke=\"#3A7ACD\" stroke-width=\"0.8\"/>"@),
{
    flat_icon("<circle cx=\"8\" cy=\"8\" r=\"6.2\" fill=\"#EAF6FF\" stroke=\"#3A7ACD\" stroke-width=\"0.9\"/><path d=\"M2 8 h12 M8 1.8 a9.5 9.5 0 0 1 0 12.4 M8 1.8 a9.5 9.5 0 0 0 0 12.4\" fill=\"none\" stroke=\"#3A7ACD\" stroke-width=\"0.8\"/>")
}

/// What is drawn for: the stock folder of a queue.
pub open spec fn stock_folder() -> Seq<char> {
    "<path d=\"M2 5 A1 1 0 0 1 3 4 h2.8 l1.2 1.3 h5 A1 1 0 0 1 13 6.3 v1 h-11 z\" fill=\"#F6D97A\" stroke=\"#C9A93F\" stroke-width=\"0.7\"/><path d=\"M2 8 h11 v4.5 a1 1 0 0 1 -1 1 h-9 a1 1 0 0 1 -1 -1 z\" fill=\"#FBE9A8\" stroke=\"#C9A93F\" stroke-width=\"0.7\"/>"@
}

/// The stock folder of a queue.
pub fn queues() -> (r: String)
    ensures
        r@ == flat_svg(stock_folder()),
{
    flat_icon("<path d=\"M2 5 A1 1 0 0 1 3 4 h2.8 l1.2 1.3 h5 A1 1 0 0 1 13 6.3 v1 h-11 z\" fill=\"#F6D97A\" stroke=\"#C9A93F\" stroke-width=\"0.7\"/><path d=\"M2 8 h11 v4.5 a1 1 0 0 1 -1 1 h-9 a1 1 0 0 1 -1 -1 z\" fill=\"#FBE9A8\" stroke=\"#C9A93F\" stroke-width=\"0.7\"/>")
}

/// What is drawn for: any other file.
pub open spec fn file_body() -> Seq<char> {
    "<path d=\"M4 1.5 h6 l3 3 v10 h-9 z\" fill=\"#FFFFFF\" stroke=\"#9AA8B8\" stroke-width=\"0.9\"/><path d=\"M10 1.5 v3 h3\" fill=\"none\" stroke=\"#9AA8B8\" stroke-width=\"0.9\"/>"@
}

/// Any other file.
pub fn file_generic() -> (r: String)
    ensures
        r@ == flat_svg(file_body()),
{
    flat_icon("<path d=\"M4 1.5 h6 l3 3 v10 h-9 z\" fill=\"#FFFFFF\" stroke=\"#9AA8B8\" stroke-width=\"0.9\"/><path d=\"M10 1.5 v3 h3\" fill=\"none\" stroke=\"#9AA8B8\" stroke-width=\"0.9\"/>")
}

/// A warning.
pub fn warning() -> (r: String)
    ensures
        r@ == flat_svg("<path d=\"M8 1.5 L15 14 H1 z\" fill=\"#F6C744\" stroke=\"#C99A20\" stroke-width=\"0.8\"/><path d=\"M8 5.5 v4.2\" stroke=\"#4A3A00\" stroke-width=\"1.5\"/><circle cx=\"8\" cy=\"11.8\" r=\"0.9\" fill=\"#4A3A00\"/>"@),
{
    flat_icon("<path d=\"M8 1.5 L15 14 H1 z\" fill=\"#F6C744\" stroke=\"#C99A20\" stroke-width=\"0.8\"/><path d=\"M8 5.5 v4.2\" stroke=\"#4A3A00\" stroke-width=\"1.5\"/><circle cx=\"8\" cy=\"11.8\" r=\"0.9\" fill=\"#4A3A00\"/>")
}

/// A piece of information.
pub fn info() -> (r: String)
    ensures
        r@ == flat_svg("<circle cx=\"8\" cy=\"8\" r=\"6.5\" fill=\"#2D7DD2\"/><circle cx=\"8\" cy=\"8\" r=\"6.5\" fill=\"none\" stroke=\"#1F5FA8\" stroke-width=\"0.8\"/><circle cx=\"8\" cy=\"4.9\" r=\"1.0\" fill=\"#FFFFFF\"/><path d=\"M8 7.2 v4.2\" stroke=\"#FFFFFF\" stroke-width=\"1.6\" stroke-linecap=\"round\"/>"@),
{
    flat_icon("<circle cx=\"8\" cy=\"8\" r=\"6.5\" fill=\"#2D7DD2\"/><circle cx=\"8\" cy=\"8\" r=\"6.5\" fill=\"none\" stroke=\"#1F5FA8\" stroke-width=\"0.8\"/><circle cx=\"8\" cy=\"4.9\" r=\"1.0\" fill=\"#FFFFFF\"/><path d=\"M8 7.2 v4.2\" stroke=\"#FFFFFF\" stroke-width=\"1.6\" stroke-linecap=\"round\"/>")
}

/// The icon of a category in the tree.
pub open spec fn category_body(name: Seq<char>) -> Seq<char> {
    if name == "Compressed"@ {
        archive_body()
    } else if name == "Documents"@ {
        document_body()
    } else if name == "Music"@ {
        music_body()
    } else if name == "Programs"@ {
        program_body()
    } else if name == "Video"@ {
        video_body()
    } else {
        file_body()
    }
}

pub fn cat_icon(name: &str) -> (r: String)
    ensures
        r@ == flat_svg(category_body(name@)),
{
    if same(name, "Compressed") {
        folder_compressed()
    } else if same(name, "Documents") {
        folder_documents()
    } else if same(name, "Music") {
        folder_music()
    } else if same(name, "Programs") {
        folder_programs()
    } else if same(name, "Video") {
        folder_video()
    } else {
        file_generic()
    }
}

// ------------------------------------------------------------------------- laws

/// A silhouette has one colour, and no pixel is more opaque than it was.
pub proof fn silhouettes_have_one_color(rgba: Seq<u8>, white: bool, i: int)
    requires
        0 <= i < rgba.len(),
    ensures
        i % 4 != 3 ==> silhouette(rgba, white)[i] == (if white {
            255u8
        } else {
            0u8
        }),
        i % 4 == 3 ==> silhouette(rgba, white)[i] <= rgba[i],
{
}

} // verus!
