//! Option parsing and validation: the region, format and filter parsers
//! the command line uses, the cross-option rules of `Args::verify`, and
//! the small decisions the runner takes from a validated configuration.

use vstd::prelude::*;

use crate::export::OutputFormat;
use crate::frame::ResampleFilter;
use crate::hotkey::{parse_result_is, spec_parse, HotKey, HotKeyParseError};
use crate::hotkey::parse_hotkey;
use crate::selection::{Rect, SelectionMode, MAX_COORD};
use crate::text::{chars_vec, spec_split_sep, split_sep, str_eq};

verus! {

/// Why the options were rejected.
#[derive(Debug, Clone, PartialEq, Eq)]
pub enum ArgsError {
    /// The monitor list request excludes every capture option.
    MonitorListExclusive,
    /// The scale factor must be greater than zero.
    ScaleNotPositive,
    /// The region's width and height must be non-zero.
    EmptyRegion,
    /// An output format or file name needs an output directory.
    FormatWithoutDir,
    /// Persistent daemon mode needs a daemon hotkey.
    PersistentWithoutHotkey,
    /// A capture delay cannot be combined with a daemon hotkey.
    DelayWithHotkey,
    /// The daemon hotkey string is empty.
    EmptyHotkey,
    /// The daemon hotkey does not parse.
    Hotkey(HotKeyParseError),
    /// A region coordinate is not a decimal number the tool can hold.
    InvalidRegion,
    /// The region does not have exactly four coordinates.
    RegionCount,
    /// The format name is not one of the supported ones.
    InvalidFormat,
    /// The filter name is not one of the supported ones.
    InvalidFilter,
}

// ----- format and filter parsers -----

/// The format a command-line token names.
pub open spec fn spec_parse_format(s: Seq<char>) -> Option<OutputFormat> {
    if s == "bmp"@ {
        Some(OutputFormat::Bmp)
    } else if s == "gif"@ {
        Some(OutputFormat::Gif)
    } else if s == "ico"@ {
        Some(OutputFormat::Ico)
    } else if s == "jpeg"@ {
        Some(OutputFormat::Jpeg)
    } else if s == "png"@ {
        Some(OutputFormat::Png)
    } else if s == "tiff"@ {
        Some(OutputFormat::Tiff)
    } else if s == "webp"@ {
        Some(OutputFormat::WebP)
    } else {
        None
    }
}

pub fn parse_format(s: &str) -> (r: Result<OutputFormat, ArgsError>)
    ensures
        (r matches Ok(f) ==> spec_parse_format(s@) == Some(f)),
        (r is Err ==> spec_parse_format(s@) is None && r == Err::<OutputFormat, ArgsError>(
            ArgsError::InvalidFormat,
        )),
{
    if str_eq(s, "bmp") {
        Ok(OutputFormat::Bmp)
    } else if str_eq(s, "gif") {
        Ok(OutputFormat::Gif)
    } else if str_eq(s, "ico") {
        Ok(OutputFormat::Ico)
    } else if str_eq(s, "jpeg") {
        Ok(OutputFormat::Jpeg)
    } else if str_eq(s, "png") {
        Ok(OutputFormat::Png)
    } else if str_eq(s, "tiff") {
        Ok(OutputFormat::Tiff)
    } else if str_eq(s, "webp") {
        Ok(OutputFormat::WebP)
    } else {
        Err(ArgsError::InvalidFormat)
    }
}

/// The resampling filter a command-line token names.
pub open spec fn spec_parse_filter(s: Seq<char>) -> Option<ResampleFilter> {
    if s == "Nearest"@ {
        Some(ResampleFilter::Nearest)
    } else if s == "Triangle"@ {
        Some(ResampleFilter::Triangle)
    } else if s == "CatmullRom"@ {
        Some(ResampleFilter::CatmullRom)
    } else if s == "Gaussian"@ {
        Some(ResampleFilter::Gaussian)
    } else if s == "Lanczos3"@ {
        Some(ResampleFilter::Lanczos3)
    } else {
        None
    }
}

pub fn parse_filter(s: &str) -> (r: Result<ResampleFilter, ArgsError>)
    ensures
        (r matches Ok(f) ==> spec_parse_filter(s@) == Some(f)),
        (r is Err ==> spec_parse_filter(s@) is None && r == Err::<ResampleFilter, ArgsError>(
            ArgsError::InvalidFilter,
        )),
{
    if str_eq(s, "Nearest") {
        Ok(ResampleFilter::Nearest)
    } else if str_eq(s, "Triangle") {
        Ok(ResampleFilter::Triangle)
    } else if str_eq(s, "CatmullRom") {
        Ok(ResampleFilter::CatmullRom)
    } else if str_eq(s, "Gaussian") {
        Ok(ResampleFilter::Gaussian)
    } else if str_eq(s, "Lanczos3") {
        Ok(ResampleFilter::Lanczos3)
    } else {
        Err(ArgsError::InvalidFilter)
    }
}

// ----- fixed-point numbers -----

pub open spec fn spec_is_digit(c: char) -> bool {
    '0' <= c && c <= '9'
}

pub open spec fn spec_digit_val(c: char) -> int {
    match c {
        '0' => 0,
        '1' => 1,
        '2' => 2,
        '3' => 3,
        '4' => 4,
        '5' => 5,
        '6' => 6,
        '7' => 7,
        '8' => 8,
        _ => 9,
    }
}

pub open spec fn spec_all_digits(s: Seq<char>) -> bool {
    forall|i: int| 0 <= i < s.len() ==> spec_is_digit(s[i])
}

/// The value of a run of decimal digits.
pub open spec fn spec_digits_val(s: Seq<char>) -> int
    decreases s.len(),
{
    if s.len() == 0 {
        0
    } else {
        spec_digits_val(s.drop_last()) * 10 + spec_digit_val(s.last())
    }
}

/// The first three fractional digits, as thousandths.
pub open spec fn spec_frac_milli(s: Seq<char>) -> int {
    (if s.len() > 0 {
        100 * spec_digit_val(s[0])
    } else {
        0
    }) + (if s.len() > 1 {
        10 * spec_digit_val(s[1])
    } else {
        0
    }) + (if s.len() > 2 {
        spec_digit_val(s[2])
    } else {
        0
    })
}

/// A decimal coordinate read to millipixels: an optional minus sign,
/// digits, optionally a point and more digits (read to thousandths),
/// with at least one digit somewhere.
pub open spec fn spec_parse_fixed(t: Seq<char>) -> Option<int> {
    let neg = t.len() > 0 && t[0] == '-';
    let body = if neg {
        t.drop_first()
    } else {
        t
    };
    let parts = spec_split_sep(body, '.');
    if parts.len() == 1 && spec_all_digits(parts[0]) && parts[0].len() > 0 {
        let v = spec_digits_val(parts[0]) * 1000;
        Some(
            if neg {
                -v
            } else {
                v
            },
        )
    } else if parts.len() == 2 && spec_all_digits(parts[0]) && spec_all_digits(parts[1]) && parts[0].len()
        + parts[1].len() > 0 {
        let v = spec_digits_val(parts[0]) * 1000 + spec_frac_milli(parts[1]);
        Some(
            if neg {
                -v
            } else {
                v
            },
        )
    } else {
        None
    }
}

proof fn lemma_digits_val_nonneg(s: Seq<char>)
    requires
        spec_all_digits(s),
    ensures
        spec_digits_val(s) >= 0,
    decreases s.len(),
{
    if s.len() > 0 {
        lemma_digits_val_nonneg(s.drop_last());
        assert(spec_digit_val(s.last()) >= 0);
        assert(spec_digits_val(s.drop_last()) * 10 >= 0) by (nonlinear_arith)
            requires
                spec_digits_val(s.drop_last()) >= 0,
        ;
    }
}

fn digit_val(c: char) -> (r: u32)
    requires
        spec_is_digit(c),
    ensures
        r == spec_digit_val(c),
        r <= 9,
{
    match c {
        '0' => 0,
        '1' => 1,
        '2' => 2,
        '3' => 3,
        '4' => 4,
        '5' => 5,
        '6' => 6,
        '7' => 7,
        '8' => 8,
        _ => 9,
    }
}

fn is_digit(c: char) -> (r: bool)
    ensures
        r == spec_is_digit(c),
{
    '0' <= c && c <= '9'
}

fn all_digits(v: &Vec<char>) -> (r: bool)
    ensures
        r == spec_all_digits(v@),
{
    let mut i: usize = 0;
    while i < v.len()
        invariant
            i <= v.len(),
            forall|j: int| 0 <= j < i ==> spec_is_digit(v@[j]),
        decreases v.len() - i,
    {
        if !is_digit(v[i]) {
            return false;
        }
        i += 1;
    }
    true
}

/// The value of a digit run, saturated at `MAX_COORD` once it cannot be a
/// coordinate any more.
fn digits_val_capped(v: &Vec<char>) -> (r: i64)
    requires
        spec_all_digits(v@),
    ensures
        0 <= r <= MAX_COORD,
        spec_digits_val(v@) <= MAX_COORD ==> r == spec_digits_val(v@),
        spec_digits_val(v@) > MAX_COORD ==> r == MAX_COORD,
{
    let mut acc: i64 = 0;
    let mut i: usize = 0;
    while i < v.len()
        invariant
            i <= v.len(),
            spec_all_digits(v@),
            0 <= acc <= MAX_COORD,
            spec_digits_val(v@.take(i as int)) <= MAX_COORD ==> acc == spec_digits_val(
                v@.take(i as int),
            ),
            spec_digits_val(v@.take(i as int)) > MAX_COORD ==> acc == MAX_COORD,
        decreases v.len() - i,
    {
        proof {
            assert(v@.take(i + 1).drop_last() =~= v@.take(i as int));
            assert(v@.take(i + 1).last() == v@[i as int]);
            lemma_digits_val_nonneg(v@.take(i as int));
            let pv = spec_digits_val(v@.take(i as int));
            if pv > MAX_COORD {
                assert(pv * 10 > MAX_COORD * 10) by (nonlinear_arith)
                    requires
                        pv > MAX_COORD,
                ;
            }
        }
        let d = digit_val(v[i]);
        let next = acc * 10 + (d as i64);
        acc = if next > MAX_COORD {
            MAX_COORD
        } else {
            next
        };
        i += 1;
    }
    proof {
        assert(v@.take(v@.len() as int) =~= v@);
    }
    acc
}

/// One coordinate token to millipixels; `None` when the token is not a
/// decimal number or its value does not fit a coordinate.
fn fixed_from_chars(t: &Vec<char>) -> (r: Option<i64>)
    ensures
        (r is Some <==> (spec_parse_fixed(t@) matches Some(v) && -MAX_COORD <= v <= MAX_COORD)),
        r matches Some(x) ==> spec_parse_fixed(t@) == Some(x as int),
{
    let neg = t.len() > 0 && t[0] == '-';
    let start: usize = if neg {
        1
    } else {
        0
    };
    let mut body: Vec<char> = Vec::new();
    let mut i: usize = start;
    while i < t.len()
        invariant
            start <= i <= t.len(),
            body@ =~= t@.subrange(start as int, i as int),
        decreases t.len() - i,
    {
        body.push(t[i]);
        proof {
            assert(t@.subrange(start as int, i + 1) =~= t@.subrange(start as int, i as int).push(
                t@[i as int],
            ));
        }
        i += 1;
    }
    proof {
        if neg {
            assert(body@ =~= t@.drop_first());
        } else {
            assert(body@ =~= t@);
        }
    }
    let parts = split_sep(&body, '.');
    proof {
        assert(parts@[0]@ == parts.deep_view()[0]);
    }
    if parts.len() == 1 {
        if !(all_digits(&parts[0]) && parts[0].len() > 0) {
            return None;
        }
        proof {
            lemma_digits_val_nonneg(parts@[0]@);
        }
        let iv = digits_val_capped(&parts[0]);
        if iv > MAX_COORD / 1000 {
            proof {
                let dv = spec_digits_val(parts.deep_view()[0]);
                assert(dv * 1000 > MAX_COORD) by (nonlinear_arith)
                    requires
                        dv > MAX_COORD / 1000,
                        dv >= 0,
                ;
            }
            return None;
        }
        let v = iv * 1000;
        Some(if neg { -v } else { v })
    } else if parts.len() == 2 {
        proof {
            assert(parts@[1]@ == parts.deep_view()[1]);
        }
        if !(all_digits(&parts[0]) && all_digits(&parts[1]) && (parts[0].len() > 0
            || parts[1].len() > 0)) {
            return None;
        }
        proof {
            lemma_digits_val_nonneg(parts@[0]@);
        }
        let iv = digits_val_capped(&parts[0]);
        let fr = frac_milli(&parts[1]);
        if iv > (MAX_COORD - fr) / 1000 {
            proof {
                let dv = spec_digits_val(parts.deep_view()[0]);
                let f = spec_frac_milli(parts.deep_view()[1]);
                assert(dv * 1000 + f > MAX_COORD) by (nonlinear_arith)
                    requires
                        dv > (MAX_COORD - f) / 1000,
                        dv >= 0,
                        0 <= f <= 999,
                ;
            }
            return None;
        }
        proof {
            let dv = spec_digits_val(parts.deep_view()[0]);
            let f = spec_frac_milli(parts.deep_view()[1]);
            assert(dv * 1000 + f <= MAX_COORD) by (nonlinear_arith)
                requires
                    dv <= (MAX_COORD - f) / 1000,
                    dv >= 0,
                    0 <= f <= 999,
            ;
        }
        let v = iv * 1000 + fr;
        Some(if neg { -v } else { v })
    } else {
        None
    }
}

fn frac_milli(v: &Vec<char>) -> (r: i64)
    requires
        spec_all_digits(v@),
    ensures
        r == spec_frac_milli(v@),
        0 <= r <= 999,
{
    let a: i64 = if v.len() > 0 {
        100 * (digit_val(v[0]) as i64)
    } else {
        0
    };
    let b: i64 = if v.len() > 1 {
        10 * (digit_val(v[1]) as i64)
    } else {
        0
    };
    let c: i64 = if v.len() > 2 {
        digit_val(v[2]) as i64
    } else {
        0
    };
    a + b + c
}

// ----- the region parser -----

/// Whether one comma-separated token is a coordinate the tool can hold.
pub open spec fn spec_region_part_ok(p: Seq<char>) -> bool {
    spec_parse_fixed(p) matches Some(v) && -MAX_COORD <= v <= MAX_COORD
}

/// Parses `x,y,width,height` with decimal coordinates into a rectangle in
/// millipixels. Every token is checked first, so a malformed or oversized
/// coordinate is reported before a wrong count.
pub fn parse_region(s: &str) -> (r: Result<Rect, ArgsError>)
    ensures
        ({
            let parts = spec_split_sep(s@, ',');
            if !(forall|k: int| 0 <= k < parts.len() ==> spec_region_part_ok(parts[k])) {
                r == Err::<Rect, ArgsError>(ArgsError::InvalidRegion)
            } else if parts.len() != 4 {
                r == Err::<Rect, ArgsError>(ArgsError::RegionCount)
            } else {
                let rect = Rect {
                    x: spec_parse_fixed(parts[0])->0 as i64,
                    y: spec_parse_fixed(parts[1])->0 as i64,
                    w: spec_parse_fixed(parts[2])->0 as i64,
                    h: spec_parse_fixed(parts[3])->0 as i64,
                };
                if rect.wf() {
                    r == Ok::<Rect, ArgsError>(rect)
                } else {
                    r == Err::<Rect, ArgsError>(ArgsError::InvalidRegion)
                }
            }
        }),
        r matches Ok(rect) ==> rect.wf(),
{
    let cv = chars_vec(s);
    let parts = split_sep(&cv, ',');
    let ghost pv = parts.deep_view();
    let mut vals: Vec<i64> = Vec::new();
    let mut i: usize = 0;
    while i < parts.len()
        invariant
            i <= parts.len(),
            pv == parts.deep_view(),
            pv == spec_split_sep(s@, ','),
            vals@.len() == i,
            forall|k: int|
                0 <= k < i ==> spec_region_part_ok(pv[k]) && spec_parse_fixed(pv[k]) == Some(
                    vals@[k] as int,
                ),
        decreases parts.len() - i,
    {
        proof {
            assert(parts@[i as int]@ == pv[i as int]);
        }
        match fixed_from_chars(&parts[i]) {
            Some(v) => {
                vals.push(v);
            },
            None => {
                return Err(ArgsError::InvalidRegion);
            },
        }
        i += 1;
    }
    if vals.len() != 4 {
        return Err(ArgsError::RegionCount);
    }
    let rect = Rect { x: vals[0], y: vals[1], w: vals[2], h: vals[3] };
    let wf_ok = -MAX_COORD <= rect.x + rect.w && rect.x + rect.w <= MAX_COORD && -MAX_COORD
        <= rect.y + rect.h && rect.y + rect.h <= MAX_COORD;
    if wf_ok {
        Ok(rect)
    } else {
        Err(ArgsError::InvalidRegion)
    }
}

// ----- the options and their validation -----

/// The raw options, as the command line hands them over (the region,
/// format and filter strings already parsed by the functions above).
#[derive(Debug, Clone)]
pub struct Args {
    pub output_dir: Option<String>,
    pub image_format: Option<OutputFormat>,
    pub mode: SelectionMode,
    pub monitor: Option<u32>,
    pub region: Option<Rect>,
    pub filename: Option<String>,
    pub delay: u64,
    pub monitor_list: bool,
    pub scale_milli: Option<u32>,
    pub filter: Option<ResampleFilter>,
    pub daemon_hotkey: Option<String>,
    pub persistent: bool,
    pub sleep: u64,
}

/// The options after validation, for a capture run.
#[derive(Debug, Clone)]
pub struct Verified {
    pub output_dir: Option<String>,
    pub image_format: Option<OutputFormat>,
    pub mode: SelectionMode,
    pub monitor: Option<u32>,
    pub region: Option<Rect>,
    pub filename: Option<String>,
    pub delay: u64,
    pub monitor_list: bool,
    pub scale_milli: Option<u32>,
    pub filter: Option<ResampleFilter>,
}

impl Verified {
    /// What the pipeline may assume of validated options.
    pub open spec fn wf(self) -> bool {
        &&& (self.region matches Some(g) ==> g.wf())
        &&& (self.scale_milli matches Some(s) ==> 1 <= s)
    }
}

/// What validation decided: run a capture, or hand off to the background
/// daemon with the given hotkey.
#[derive(Debug, Clone)]
pub enum VerifyOutcome {
    Run(Verified),
    Daemon(DaemonPlan),
}

/// Everything the daemon hand-off needs: the parsed hotkey, its canonical
/// spelling for the child process's arguments, and the polling options.
#[derive(Debug, Clone)]
pub struct DaemonPlan {
    pub hotkey: HotKey,
    pub hotkey_string: String,
    pub sleep: u64,
    pub persistent: bool,
}

impl Args {
    /// The monitor list request tolerates no other capture option.
    pub open spec fn spec_monitor_conflict(self) -> bool {
        self.monitor_list && (self.output_dir is Some || self.image_format is Some
            || self.filename is Some || self.region is Some || self.scale_milli is Some
            || self.daemon_hotkey is Some)
    }

    /// Checks the cross-option rules one after another — monitor-list
    /// exclusivity, then the scale, the region extent, the format
    /// options, the persistence flag, the delay and last the hotkey —
    /// and the first that fails names the error; on success it decides
    /// between a capture run and a daemon hand-off.
    /// `cmd_or_ctrl_super` picks the platform canonicalization for the
    /// hotkey grammar.
    pub fn verify(self, cmd_or_ctrl_super: bool) -> (r: Result<VerifyOutcome, ArgsError>)
        requires
            (self.region matches Some(g) ==> g.wf()),
        ensures
            ({
                if self.spec_monitor_conflict() {
                    r == Err::<VerifyOutcome, ArgsError>(ArgsError::MonitorListExclusive)
                } else if self.scale_milli == Some(0u32) {
                    r == Err::<VerifyOutcome, ArgsError>(ArgsError::ScaleNotPositive)
                } else if self.region matches Some(g) && (g.w == 0 || g.h == 0) {
                    r == Err::<VerifyOutcome, ArgsError>(ArgsError::EmptyRegion)
                } else if (self.image_format is Some || self.filename is Some)
                    && self.output_dir is None {
                    r == Err::<VerifyOutcome, ArgsError>(ArgsError::FormatWithoutDir)
                } else if self.persistent && self.daemon_hotkey is None {
                    r == Err::<VerifyOutcome, ArgsError>(ArgsError::PersistentWithoutHotkey)
                } else if self.daemon_hotkey is Some && self.delay > 0 {
                    r == Err::<VerifyOutcome, ArgsError>(ArgsError::DelayWithHotkey)
                } else {
                    match self.daemon_hotkey {
                        Some(hk) => if hk@.len() == 0 {
                            r == Err::<VerifyOutcome, ArgsError>(ArgsError::EmptyHotkey)
                        } else {
                            match spec_parse(hk@, cmd_or_ctrl_super) {
                                Ok(h) => r matches Ok(VerifyOutcome::Daemon(plan)) && plan.hotkey
                                    == h && plan.hotkey_string@ == h.spec_format() && plan.sleep
                                    == self.sleep && plan.persistent == self.persistent,
                                Err(e) => r matches Err(ArgsError::Hotkey(pe)) && parse_result_is(
                                    Err(pe),
                                    Err(e),
                                ),
                            }
                        },
                        None => r matches Ok(VerifyOutcome::Run(v)) && v.output_dir == self.output_dir
                        && v.image_format == self.image_format && v.mode == self.mode && v.monitor
                        == self.monitor && v.region == self.region && v.filename == self.filename
                        && v.delay == self.delay && v.monitor_list == self.monitor_list
                            && v.scale_milli == self.scale_milli && v.filter == self.filter
                            && v.wf(),
                    }
                }
            }),
    {
        if self.monitor_list && (self.output_dir.is_some() || self.image_format.is_some()
            || self.filename.is_some() || self.region.is_some() || self.scale_milli.is_some()
            || self.daemon_hotkey.is_some()) {
            return Err(ArgsError::MonitorListExclusive);
        }
        if let Some(s) = self.scale_milli {
            if s == 0 {
                return Err(ArgsError::ScaleNotPositive);
            }
        }
        if let Some(g) = self.region {
            if g.w == 0 || g.h == 0 {
                return Err(ArgsError::EmptyRegion);
            }
        }
        if (self.image_format.is_some() || self.filename.is_some()) && self.output_dir.is_none() {
            return Err(ArgsError::FormatWithoutDir);
        }
        if self.persistent && self.daemon_hotkey.is_none() {
            return Err(ArgsError::PersistentWithoutHotkey);
        }
        if self.daemon_hotkey.is_some() && self.delay > 0 {
            return Err(ArgsError::DelayWithHotkey);
        }
        if let Some(hk) = &self.daemon_hotkey {
            if hk.as_str().is_empty() {
                return Err(ArgsError::EmptyHotkey);
            }
            match parse_hotkey(hk.as_str(), cmd_or_ctrl_super) {
                Ok(h) => {
                    return Ok(
                        VerifyOutcome::Daemon(
                            DaemonPlan {
                                hotkey: h,
                                hotkey_string: h.into_string(),
                                sleep: self.sleep,
                                persistent: self.persistent,
                            },
                        ),
                    );
                },
                Err(e) => {
                    return Err(ArgsError::Hotkey(e));
                },
            }
        }
        Ok(
            VerifyOutcome::Run(
                Verified {
                    output_dir: self.output_dir,
                    image_format: self.image_format,
                    mode: self.mode,
                    monitor: self.monitor,
                    region: self.region,
                    filename: self.filename,
                    delay: self.delay,
                    monitor_list: self.monitor_list,
                    scale_milli: self.scale_milli,
                    filter: self.filter,
                },
            ),
        )
    }
}

// ----- run planning -----

/// What a validated capture run does first.
#[derive(Debug, Clone, Copy, PartialEq, Eq, Structural)]
pub enum RunPlan {
    /// List the monitors and exit.
    ListMonitors,
    /// Capture the given region at once, with no interactive session.
    CaptureRegion,
    /// Open the interactive selection session.
    Interactive,
}

pub fn run_plan(v: &Verified) -> (r: RunPlan)
    ensures
        r == (if v.monitor_list {
            RunPlan::ListMonitors
        } else if v.region is Some {
            RunPlan::CaptureRegion
        } else {
            RunPlan::Interactive
        }),
{
    if v.monitor_list {
        RunPlan::ListMonitors
    } else if v.region.is_some() {
        RunPlan::CaptureRegion
    } else {
        RunPlan::Interactive
    }
}

// ----- monitor selection -----

/// The first monitor with the requested id, if any.
pub open spec fn spec_first_with_id(s: Seq<(u32, bool)>, id: u32) -> Option<int>
    decreases s.len(),
{
    if s.len() == 0 {
        None
    } else if s[0].0 == id {
        Some(0)
    } else {
        match spec_first_with_id(s.drop_first(), id) {
            Some(i) => Some(i + 1),
            None => None,
        }
    }
}

/// The first primary monitor, if any.
pub open spec fn spec_first_primary(s: Seq<(u32, bool)>) -> Option<int>
    decreases s.len(),
{
    if s.len() == 0 {
        None
    } else if s[0].1 {
        Some(0)
    } else {
        match spec_first_primary(s.drop_first()) {
            Some(i) => Some(i + 1),
            None => None,
        }
    }
}

/// Which monitor to capture: the requested id where it exists, else the
/// primary one, else none. Each monitor is its id plus whether it is the
/// primary one.
pub open spec fn spec_select_monitor(s: Seq<(u32, bool)>, requested: Option<u32>) -> Option<int> {
    match requested {
        Some(id) => match spec_first_with_id(s, id) {
            Some(i) => Some(i),
            None => spec_first_primary(s),
        },
        None => spec_first_primary(s),
    }
}

proof fn lemma_first_with_id_step(s: Seq<(u32, bool)>, id: u32, i: int)
    requires
        0 <= i <= s.len(),
        forall|j: int| 0 <= j < i ==> s[j].0 != id,
    ensures
        spec_first_with_id(s, id) == match spec_first_with_id(s.skip(i), id) {
            Some(k) => Some(k + i),
            None => None::<int>,
        },
    decreases i,
{
    if i > 0 {
        assert(s.drop_first().skip(i - 1) =~= s.skip(i));
        lemma_first_with_id_step(s.drop_first(), id, i - 1);
    } else {
        assert(s.skip(0) =~= s);
    }
}

proof fn lemma_first_primary_step(s: Seq<(u32, bool)>, i: int)
    requires
        0 <= i <= s.len(),
        forall|j: int| 0 <= j < i ==> !s[j].1,
    ensures
        spec_first_primary(s) == match spec_first_primary(s.skip(i)) {
            Some(k) => Some(k + i),
            None => None::<int>,
        },
    decreases i,
{
    if i > 0 {
        assert(s.drop_first().skip(i - 1) =~= s.skip(i));
        lemma_first_primary_step(s.drop_first(), i - 1);
    } else {
        assert(s.skip(0) =~= s);
    }
}

/// Picks the monitor to capture from, as `spec_select_monitor` says.
pub fn select_monitor(monitors: &Vec<(u32, bool)>, requested: Option<u32>) -> (r: Option<usize>)
    ensures
        r matches Some(i) ==> spec_select_monitor(monitors@, requested) == Some(i as int) && i
            < monitors.len(),
        r is None ==> spec_select_monitor(monitors@, requested) is None,
{
    match requested {
        Some(id) => {
            let mut i: usize = 0;
            while i < monitors.len()
                invariant
                    i <= monitors.len(),
                    forall|j: int| 0 <= j < i ==> monitors@[j].0 != id,
                    requested == Some(id),
                decreases monitors.len() - i,
            {
                if monitors[i].0 == id {
                    proof {
                        lemma_first_with_id_step(monitors@, id, i as int);
                        assert(monitors@.skip(i as int)[0] == monitors@[i as int]);
                        assert(spec_first_with_id(monitors@.skip(i as int), id) == Some(0int));
                    }
                    return Some(i);
                }
                i += 1;
            }
            proof {
                lemma_first_with_id_step(monitors@, id, monitors@.len() as int);
                assert(monitors@.skip(monitors@.len() as int) =~= Seq::<(u32, bool)>::empty());
            }
            first_primary(monitors)
        },
        None => first_primary(monitors),
    }
}

fn first_primary(monitors: &Vec<(u32, bool)>) -> (r: Option<usize>)
    ensures
        r matches Some(i) ==> spec_first_primary(monitors@) == Some(i as int) && i
            < monitors.len(),
        r is None ==> spec_first_primary(monitors@) is None,
{
    let mut i: usize = 0;
    while i < monitors.len()
        invariant
            i <= monitors.len(),
            forall|j: int| 0 <= j < i ==> !monitors@[j].1,
        decreases monitors.len() - i,
    {
        if monitors[i].1 {
            proof {
                lemma_first_primary_step(monitors@, i as int);
                assert(monitors@.skip(i as int)[0] == monitors@[i as int]);
                assert(spec_first_primary(monitors@.skip(i as int)) == Some(0int));
            }
            return Some(i);
        }
        i += 1;
    }
    proof {
        lemma_first_primary_step(monitors@, monitors@.len() as int);
        assert(monitors@.skip(monitors@.len() as int) =~= Seq::<(u32, bool)>::empty());
    }
    None
}

} // verus!
