//! The capture-export pipeline's logic: the crop rounding policy, the
//! uniform rescale, the generated file name with its local timestamp, and
//! the choice between the file and clipboard destinations. The sinks
//! themselves (writing a file, setting the clipboard) stay outside.

use vstd::prelude::*;

use chrono::Datelike;
use chrono::Timelike;

use crate::args::Verified;
use crate::frame::{frame_height, frame_pixels, frame_width, resampled, Frame, ResampleFilter};
use crate::frame::DIM_LIMIT;
use crate::selection::{spec_clamp, Rect, MAX_COORD, MILLI};
use crate::text::push_char;

verus! {

/// The image formats the tool can write.
#[derive(Debug, Clone, Copy, PartialEq, Eq, Structural)]
pub enum OutputFormat {
    Bmp,
    Gif,
    Ico,
    Jpeg,
    Png,
    Tiff,
    WebP,
}

/// The file extension of each format (the image crate's preferred one).
pub open spec fn spec_extension(f: OutputFormat) -> Seq<char> {
    match f {
        OutputFormat::Bmp => "bmp"@,
        OutputFormat::Gif => "gif"@,
        OutputFormat::Ico => "ico"@,
        OutputFormat::Jpeg => "jpg"@,
        OutputFormat::Png => "png"@,
        OutputFormat::Tiff => "tiff"@,
        OutputFormat::WebP => "webp"@,
    }
}

pub fn extension(f: OutputFormat) -> (r: &'static str)
    ensures
        r@ == spec_extension(f),
{
    match f {
        OutputFormat::Bmp => "bmp",
        OutputFormat::Gif => "gif",
        OutputFormat::Ico => "ico",
        OutputFormat::Jpeg => "jpg",
        OutputFormat::Png => "png",
        OutputFormat::Tiff => "tiff",
        OutputFormat::WebP => "webp",
    }
}

// ----- decimal rendering -----

pub open spec fn spec_digit_char(d: int) -> char {
    if d == 0 {
        '0'
    } else if d == 1 {
        '1'
    } else if d == 2 {
        '2'
    } else if d == 3 {
        '3'
    } else if d == 4 {
        '4'
    } else if d == 5 {
        '5'
    } else if d == 6 {
        '6'
    } else if d == 7 {
        '7'
    } else if d == 8 {
        '8'
    } else {
        '9'
    }
}

/// The decimal digits of a number, most significant first.
pub open spec fn spec_decimal(n: nat) -> Seq<char>
    decreases n,
{
    if n < 10 {
        seq![spec_digit_char(n as int)]
    } else {
        spec_decimal(n / 10).push(spec_digit_char((n % 10) as int))
    }
}

/// The decimal digits, left-padded with zeros to at least `w` characters.
pub open spec fn spec_zero_pad(n: nat, w: nat) -> Seq<char> {
    if spec_decimal(n).len() >= w {
        spec_decimal(n)
    } else {
        Seq::new((w - spec_decimal(n).len()) as nat, |i: int| '0') + spec_decimal(n)
    }
}

fn digit_char(d: u32) -> (r: char)
    requires
        d < 10,
    ensures
        r == spec_digit_char(d as int),
{
    if d == 0 {
        '0'
    } else if d == 1 {
        '1'
    } else if d == 2 {
        '2'
    } else if d == 3 {
        '3'
    } else if d == 4 {
        '4'
    } else if d == 5 {
        '5'
    } else if d == 6 {
        '6'
    } else if d == 7 {
        '7'
    } else if d == 8 {
        '8'
    } else {
        '9'
    }
}

fn decimal_chars(n: u32) -> (r: Vec<char>)
    ensures
        r@ == spec_decimal(n as nat),
    decreases n,
{
    if n < 10 {
        let mut r: Vec<char> = Vec::new();
        r.push(digit_char(n));
        proof {
            assert(r@ =~= spec_decimal(n as nat));
        }
        r
    } else {
        let mut r = decimal_chars(n / 10);
        r.push(digit_char(n % 10));
        r
    }
}

/// Appends the decimal form of `n`, zero-padded to at least `w` digits.
fn push_zero_pad(out: &mut Vec<char>, n: u32, w: usize)
    ensures
        final(out)@ == old(out)@ + spec_zero_pad(n as nat, w as nat),
{
    let d = decimal_chars(n);
    let mut k: usize = d.len();
    while k < w
        invariant
            d@ == spec_decimal(n as nat),
            d.len() <= k <= vstd::math::max(w as int, d.len() as int),
            out@ =~= old(out)@ + Seq::new((k - d.len()) as nat, |i: int| '0'),
        decreases w - k,
    {
        out.push('0');
        proof {
            assert(Seq::new((k + 1 - d@.len()) as nat, |i: int| '0') =~= Seq::new(
                (k - d@.len()) as nat,
                |i: int| '0',
            ).push('0'));
        }
        k += 1;
    }
    let mut i: usize = 0;
    let ghost mid = out@;
    while i < d.len()
        invariant
            d@ == spec_decimal(n as nat),
            i <= d.len(),
            out@ =~= mid + d@.take(i as int),
        decreases d.len() - i,
    {
        out.push(d[i]);
        proof {
            assert(d@.take(i + 1) =~= d@.take(i as int).push(d@[i as int]));
        }
        i += 1;
    }
    proof {
        assert(d@.take(d@.len() as int) =~= d@);
        assert(out@ =~= old(out)@ + spec_zero_pad(n as nat, w as nat));
    }
}

// ----- timestamps and file names -----

/// A local wall-clock date and time, split into plain fields.
#[derive(Debug, Clone, Copy, PartialEq, Eq, Structural)]
pub struct Timestamp {
    pub year: i32,
    pub month: u8,
    pub day: u8,
    pub hour: u8,
    pub minute: u8,
    pub second: u8,
}

impl Timestamp {
    /// The ranges the clock collaborator promises.
    pub open spec fn wf(self) -> bool {
        &&& 1 <= self.month <= 12
        &&& 1 <= self.day <= 31
        &&& self.hour <= 23
        &&& self.minute <= 59
        &&& self.second <= 59
    }
}

/// Relies on chrono::Local::now and its Datelike/Timelike accessors: the
/// current local date and time. Only the documented field ranges are
/// assumed; the year is whatever the clock says. The call itself aborts
/// on a system clock set before 1970, an environment no argument of this
/// function can exclude.
#[verifier::external_body]
pub fn local_now() -> (r: Timestamp)
    ensures
        r.wf(),
{
    let t = chrono::Local::now();
    Timestamp {
        year: t.year(),
        month: t.month() as u8,
        day: t.day() as u8,
        hour: t.hour() as u8,
        minute: t.minute() as u8,
        second: t.second() as u8,
    }
}

/// `YYYY-MM-DD-HH-MM-SS`: every field zero-padded, the year to four
/// digits (with a leading sign if it is negative).
pub open spec fn spec_timestamp_chars(t: Timestamp) -> Seq<char> {
    (if t.year < 0 {
        seq!['-'] + spec_zero_pad((-(t.year as int)) as nat, 4)
    } else {
        spec_zero_pad(t.year as nat, 4)
    }) + seq!['-'] + spec_zero_pad(t.month as nat, 2) + seq!['-'] + spec_zero_pad(t.day as nat, 2)
        + seq!['-'] + spec_zero_pad(t.hour as nat, 2) + seq!['-'] + spec_zero_pad(t.minute as nat, 2)
        + seq!['-'] + spec_zero_pad(t.second as nat, 2)
}

pub fn timestamp_chars(t: Timestamp) -> (r: Vec<char>)
    ensures
        r@ == spec_timestamp_chars(t),
{
    let mut out: Vec<char> = Vec::new();
    if t.year < 0 {
        out.push('-');
        let mag = -(t.year as i64);
        proof {
            assert(0 < mag <= 0x8000_0000);
        }
        push_zero_pad(&mut out, mag as u32, 4);
    } else {
        push_zero_pad(&mut out, t.year as u32, 4);
    }
    out.push('-');
    push_zero_pad(&mut out, t.month as u32, 2);
    out.push('-');
    push_zero_pad(&mut out, t.day as u32, 2);
    out.push('-');
    push_zero_pad(&mut out, t.hour as u32, 2);
    out.push('-');
    push_zero_pad(&mut out, t.minute as u32, 2);
    out.push('-');
    push_zero_pad(&mut out, t.second as u32, 2);
    proof {
        assert(out@ =~= spec_timestamp_chars(t));
    }
    out
}

/// `<base>-<timestamp>.<extension>`: the name the exported file gets.
pub open spec fn spec_output_file_name(base: Seq<char>, t: Timestamp, f: OutputFormat) -> Seq<
    char,
> {
    base + seq!['-'] + spec_timestamp_chars(t) + seq!['.'] + spec_extension(f)
}

pub fn output_file_name(base: &str, t: Timestamp, f: OutputFormat) -> (r: String)
    ensures
        r@ == spec_output_file_name(base@, t, f),
{
    let mut out = String::new();
    out.append(base);
    push_char(&mut out, '-');
    let ts = timestamp_chars(t);
    let mut i: usize = 0;
    let ghost mid = out@;
    while i < ts.len()
        invariant
            ts@ == spec_timestamp_chars(t),
            i <= ts.len(),
            out@ =~= mid + ts@.take(i as int),
        decreases ts.len() - i,
    {
        push_char(&mut out, ts[i]);
        proof {
            assert(ts@.take(i + 1) =~= ts@.take(i as int).push(ts@[i as int]));
        }
        i += 1;
    }
    proof {
        assert(ts@.take(ts@.len() as int) =~= ts@);
    }
    push_char(&mut out, '.');
    out.append(extension(f));
    proof {
        assert(out@ =~= spec_output_file_name(base@, t, f));
    }
    out
}

// ----- crop geometry -----

/// A pixel-aligned region inside a frame.
#[derive(Debug, Clone, Copy, PartialEq, Eq, Structural)]
pub struct CropRegion {
    pub x: u32,
    pub y: u32,
    pub w: u32,
    pub h: u32,
}

/// Millipixels rounded down to whole pixels.
pub open spec fn spec_floor_px(v: int) -> int {
    v / (MILLI as int)
}

/// Millipixels rounded up to whole pixels.
pub open spec fn spec_ceil_px(v: int) -> int {
    (v + MILLI - 1) / (MILLI as int)
}

/// The crop rounding policy: the selection is normalized (anchor to the
/// low corner, extents made positive), the origin is rounded up and the
/// extent down — biasing the crop inside the captured frame — and the
/// region is clamped into the frame's bounds.
pub open spec fn spec_crop_region(sel: Rect, fw: int, fh: int) -> (int, int, int, int) {
    let x0 = if sel.w < 0 {
        sel.x + sel.w
    } else {
        sel.x as int
    };
    let y0 = if sel.h < 0 {
        sel.y + sel.h
    } else {
        sel.y as int
    };
    let ww = if sel.w < 0 {
        -(sel.w as int)
    } else {
        sel.w as int
    };
    let hh = if sel.h < 0 {
        -(sel.h as int)
    } else {
        sel.h as int
    };
    let cx = spec_clamp(spec_ceil_px(x0), 0, fw);
    let cy = spec_clamp(spec_ceil_px(y0), 0, fh);
    let cw = spec_clamp(spec_floor_px(ww), 0, fw - cx);
    let ch = spec_clamp(spec_floor_px(hh), 0, fh - cy);
    (cx, cy, cw, ch)
}

fn floor_px(v: i64) -> (r: i64)
    requires
        -0x2000_0000_0000_0000 <= v <= 0x2000_0000_0000_0000,
    ensures
        r == spec_floor_px(v as int),
{
    if v >= 0 {
        v / MILLI
    } else {
        let q = -((-v + MILLI - 1) / MILLI);
        proof {
            let u = -(v as int);
            let q2 = (u + 999) / 1000;
            let r2 = (u + 999) % 1000;
            let qe = (v as int) / 1000;
            let re = (v as int) % 1000;
            vstd::arithmetic::div_mod::lemma_fundamental_div_mod(u + 999, 1000);
            vstd::arithmetic::div_mod::lemma_fundamental_div_mod(v as int, 1000);
            vstd::arithmetic::div_mod::lemma_mod_division_less_than_divisor(u + 999, 1000);
            vstd::arithmetic::div_mod::lemma_mod_division_less_than_divisor(v as int, 1000);
            assert(q2 == -qe) by (nonlinear_arith)
                requires
                    u + 999 == 1000 * q2 + r2,
                    v == 1000 * qe + re,
                    u == -(v as int),
                    0 <= r2 < 1000,
                    0 <= re < 1000,
            ;
        }
        q
    }
}

fn ceil_px(v: i64) -> (r: i64)
    requires
        -0x1000_0000_0000_0000 <= v <= 0x1000_0000_0000_0000,
    ensures
        r == spec_ceil_px(v as int),
{
    floor_px(v + MILLI - 1)
}

/// The pixel region a selection crops to, inside a `fw x fh` frame.
pub fn crop_region(sel: Rect, fw: u32, fh: u32) -> (r: CropRegion)
    requires
        sel.wf(),
    ensures
        (r.x as int, r.y as int, r.w as int, r.h as int) == spec_crop_region(
            sel,
            fw as int,
            fh as int,
        ),
        r.x + r.w <= fw,
        r.y + r.h <= fh,
{
    let (x0, ww) = if sel.w < 0 {
        (sel.x + sel.w, -sel.w)
    } else {
        (sel.x, sel.w)
    };
    let (y0, hh) = if sel.h < 0 {
        (sel.y + sel.h, -sel.h)
    } else {
        (sel.y, sel.h)
    };
    let cx = clamp_u32(ceil_px(x0), fw);
    let cy = clamp_u32(ceil_px(y0), fh);
    let cw = clamp_u32(floor_px(ww), fw - cx);
    let ch = clamp_u32(floor_px(hh), fh - cy);
    CropRegion { x: cx, y: cy, w: cw, h: ch }
}

fn clamp_u32(v: i64, hi: u32) -> (r: u32)
    ensures
        r as int == spec_clamp(v as int, 0, hi as int),
{
    if v < 0 {
        0
    } else if v > hi as i64 {
        hi
    } else {
        v as u32
    }
}

/// Crops the frame to the selection — or to the externally supplied
/// region, which takes precedence — under the rounding policy above.
pub fn crop_image(img: &Frame, region: Option<Rect>, selection: Rect) -> (r: Frame)
    requires
        selection.wf(),
        (region matches Some(g) ==> g.wf()),
    ensures
        ({
            let rect = match region {
                Some(g) => g,
                None => selection,
            };
            let (cx, cy, cw, ch) = spec_crop_region(
                rect,
                frame_width(*img) as int,
                frame_height(*img) as int,
            );
            &&& frame_width(r) == cw
            &&& frame_height(r) == ch
            &&& forall|i: int, j: int|
                0 <= i < cw && 0 <= j < ch ==> frame_pixels(r)[(i, j)] == frame_pixels(*img)[(
                    cx + i,
                    cy + j,
                )]
        }),
{
    let rect = match region {
        Some(g) => g,
        None => selection,
    };
    let reg = crop_region(rect, img.width(), img.height());
    img.crop(reg.x, reg.y, reg.w, reg.h)
}

// ----- rescale -----

/// The scaled length of one dimension: rounded to the nearest pixel and
/// saturated at the dimension limit that keeps the resampler's buffers
/// representable.
pub open spec fn spec_scaled(dim: nat, scale_milli: nat) -> nat {
    let v = (dim * scale_milli + 500) / 1000;
    if v > DIM_LIMIT {
        DIM_LIMIT as nat
    } else {
        v
    }
}

/// Rescales the frame uniformly by `scale_milli / 1000` with the given
/// resampling filter. The source must fit the rescaler's dimension limit;
/// the target dimensions are saturated at it.
pub fn resize_image(image: &Frame, scale_milli: u32, filter: ResampleFilter) -> (r: Frame)
    requires
        1 <= scale_milli,
        frame_width(*image) <= DIM_LIMIT,
    ensures
        frame_width(r) == spec_scaled(frame_width(*image) as nat, scale_milli as nat),
        frame_height(r) == spec_scaled(frame_height(*image) as nat, scale_milli as nat),
        frame_pixels(r) == resampled(
            *image,
            (spec_scaled(frame_width(*image) as nat, scale_milli as nat)) as u32,
            (spec_scaled(frame_height(*image) as nat, scale_milli as nat)) as u32,
            filter,
        ),
{
    let w = scaled_dim(image.width(), scale_milli);
    let h = scaled_dim(image.height(), scale_milli);
    proof {
        assert(4 * (w as int) * (h as int) < 0x8000_0000_0000_0000) by (nonlinear_arith)
            requires
                0 <= w <= DIM_LIMIT,
                0 <= h <= DIM_LIMIT,
        ;
        assert(16 * (frame_width(*image) as int) * (h as int) < 0x8000_0000_0000_0000)
            by (nonlinear_arith)
            requires
                0 <= frame_width(*image) <= DIM_LIMIT,
                0 <= h <= DIM_LIMIT,
        ;
    }
    image.resize(w, h, filter)
}

fn scaled_dim(dim: u32, scale_milli: u32) -> (r: u32)
    ensures
        r == spec_scaled(dim as nat, scale_milli as nat),
        r <= DIM_LIMIT,
{
    proof {
        assert((dim as int) * (scale_milli as int) <= 0xFFFF_FFFF * 0xFFFF_FFFF)
            by (nonlinear_arith)
            requires
                0 <= dim <= 0xFFFF_FFFF,
                0 <= scale_milli <= 0xFFFF_FFFF,
        ;
    }
    let v = ((dim as u64) * (scale_milli as u64) + 500) / 1000;
    if v > DIM_LIMIT as u64 {
        DIM_LIMIT
    } else {
        v as u32
    }
}

// ----- destination -----

/// Where the artifact goes: the clipboard, or a file with the generated
/// name under the chosen output directory.
#[derive(Debug, Clone, PartialEq, Eq)]
pub enum Destination {
    Clipboard,
    File(String),
}

/// Why an export could not even start.
#[derive(Debug, Clone, Copy, PartialEq, Eq, Structural)]
pub enum ExportError {
    /// Neither an external region nor an interactive selection exists.
    NoSelection,
}

/// A scaled export is sound: some frame holding exactly the crop of the
/// source resamples to the output under the chosen size and filter.
pub open spec fn spec_resampled_crop(
    src: Frame,
    out: Frame,
    cx: int,
    cy: int,
    cw: int,
    ch: int,
    sw: u32,
    sh: u32,
    filter: ResampleFilter,
) -> bool {
    exists|c: Frame|
        {
            &&& frame_width(c) == cw
            &&& frame_height(c) == ch
            &&& (forall|i: int, j: int|
                0 <= i < cw && 0 <= j < ch ==> frame_pixels(c)[(i, j)] == frame_pixels(src)[(
                    cx + i,
                    cy + j,
                )])
            &&& frame_pixels(out) == #[trigger] resampled(c, sw, sh, filter)
        }
}

/// The pipeline: picks the region (an external one wins over the
/// selection), crops, optionally rescales, and decides the destination.
/// Fails exactly when there is nothing to crop. The caller supplies the
/// clock reading that names the file; a rescale asks that the frame fit
/// the rescaler's dimension limit.
#[verifier::rlimit(100)]
pub fn save_selection(img: &Frame, args: &Verified, selection: Option<Rect>, now: Timestamp) -> (r:
    Result<(Frame, Destination), ExportError>)
    requires
        args.wf(),
        (selection matches Some(s) ==> s.wf()),
        (args.scale_milli is Some ==> frame_width(*img) <= DIM_LIMIT),
    ensures
        (r is Ok <==> (args.region is Some || selection is Some)),
        (r is Err ==> r == Err::<(Frame, Destination), ExportError>(ExportError::NoSelection)),
        r matches Ok((out, dest)) ==> ({
            let rect = match args.region {
                Some(g) => g,
                None => selection->0,
            };
            let (cx, cy, cw, ch) = spec_crop_region(
                rect,
                frame_width(*img) as int,
                frame_height(*img) as int,
            );
            &&& (match args.scale_milli {
                Some(s) => {
                    let sw = spec_scaled(cw as nat, s as nat);
                    let sh = spec_scaled(ch as nat, s as nat);
                    let filter = match args.filter {
                        Some(f) => f,
                        None => ResampleFilter::Nearest,
                    };
                    &&& frame_width(out) == sw
                    &&& frame_height(out) == sh
                    &&& spec_resampled_crop(
                        *img,
                        out,
                        cx,
                        cy,
                        cw,
                        ch,
                        sw as u32,
                        sh as u32,
                        filter,
                    )
                },
                None => frame_width(out) == cw && frame_height(out) == ch && (forall|
                    i: int,
                    j: int,
                |
                    0 <= i < cw && 0 <= j < ch ==> frame_pixels(out)[(i, j)] == frame_pixels(
                        *img,
                    )[(cx + i, cy + j)]),
            })
            &&& (match args.output_dir {
                None => dest == Destination::Clipboard,
                Some(_) => dest matches Destination::File(name) && name@ == spec_output_file_name(
                    match args.filename {
                        Some(f) => f@,
                        None => "cleave"@,
                    },
                    now,
                    match args.image_format {
                        Some(f) => f,
                        None => OutputFormat::Png,
                    },
                ),
            })
        }),
{
    if args.region.is_none() && selection.is_none() {
        return Err(ExportError::NoSelection);
    }
    let rect = match args.region {
        Some(g) => g,
        None => match selection {
            Some(s) => s,
            None => {
                return Err(ExportError::NoSelection);
            },
        },
    };
    let mut out = crop_image(img, None, rect);
    let ghost cropped = out;
    match args.scale_milli {
        Some(scale) => {
            let filter = match args.filter {
                Some(f) => f,
                None => ResampleFilter::Nearest,
            };
            out = resize_image(&out, scale, filter);
            proof {
                let (cx, cy, cw, ch) = spec_crop_region(
                    rect,
                    frame_width(*img) as int,
                    frame_height(*img) as int,
                );
                let sw = spec_scaled(cw as nat, scale as nat);
                let sh = spec_scaled(ch as nat, scale as nat);
                assert(frame_width(cropped) == cw && frame_height(cropped) == ch);
                assert(frame_pixels(out) == resampled(cropped, sw as u32, sh as u32, filter));
                assert(forall|i: int, j: int|
                    0 <= i < cw && 0 <= j < ch ==> frame_pixels(cropped)[(i, j)] == frame_pixels(
                        *img,
                    )[(cx + i, cy + j)]);
                assert(spec_resampled_crop(
                    *img,
                    out,
                    cx,
                    cy,
                    cw,
                    ch,
                    sw as u32,
                    sh as u32,
                    filter,
                ));
            }
        },
        None => {},
    }
    let dest = match &args.output_dir {
        None => Destination::Clipboard,
        Some(_) => {
            let base = match &args.filename {
                Some(f) => f.as_str(),
                None => "cleave",
            };
            let format = match args.image_format {
                Some(f) => f,
                None => OutputFormat::Png,
            };
            Destination::File(output_file_name(base, now, format))
        },
    };
    Ok((out, dest))
}

} // verus!
