//! What is known of a source after probing it, and the reading of the
//! probing tool's output.

use vstd::prelude::*;
use crate::args::push_text;
use crate::scan::{
    all_digits,
    digits_only,
    find_byte,
    first_index_of,
    parse_positive,
    read_positive,
    trim,
    trim_bounds,
};

verus! {

/// Why a source could not be probed.
#[derive(Clone, Copy, Debug, PartialEq, Eq, Structural)]
pub enum ProbeError {
    /// The probing tool did not exit successfully.
    ToolFailed,
    /// The tool's answer is not of the form `{width}x{height}` with two
    /// positive integers.
    MalformedDimensions,
    /// The tool's answer does not start with a positive integer followed by `/`
    /// or the end of the answer.
    MalformedFrameRate,
    /// The tool's answer is not a plain decimal number of seconds.
    MalformedDuration,
}

/// What one run of the probing tool gave back.
pub struct ToolOutput {
    /// Whether the tool exited with status zero.
    pub success: bool,
    /// What the tool printed on its standard output.
    pub stdout: Vec<u8>,
}

/// Frame size and frame rate of a source. All three are greater than zero.
#[derive(Clone, Copy, Debug)]
pub struct SourceProbe {
    width: u32,
    height: u32,
    frame_rate: u32,
}

impl SourceProbe {
    #[verifier::type_invariant]
    spec fn inv(self) -> bool {
        self.width > 0 && self.height > 0 && self.frame_rate > 0
    }

    /// Width in pixels.
    pub closed spec fn spec_width(self) -> u32 {
        self.width
    }

    /// Height in pixels.
    pub closed spec fn spec_height(self) -> u32 {
        self.height
    }

    /// Whole frames per second.
    pub closed spec fn spec_frame_rate(self) -> u32 {
        self.frame_rate
    }

    /// A probe with the given values, unless one of them is zero.
    pub fn new(width: u32, height: u32, frame_rate: u32) -> (probe: Option<SourceProbe>)
        ensures
            probe is Some <==> width > 0 && height > 0 && frame_rate > 0,
            probe matches Some(p) ==> p.spec_width() == width && p.spec_height() == height
                && p.spec_frame_rate() == frame_rate,
    {
        if width > 0 && height > 0 && frame_rate > 0 {
            Some(SourceProbe { width, height, frame_rate })
        } else {
            None
        }
    }

    /// Width in pixels.
    #[verifier::when_used_as_spec(spec_width)]
    pub fn width(self) -> (w: u32)
        ensures
            w == self.spec_width(),
            w > 0,
    {
        proof {
            use_type_invariant(self);
        }
        self.width
    }

    /// Height in pixels.
    #[verifier::when_used_as_spec(spec_height)]
    pub fn height(self) -> (h: u32)
        ensures
            h == self.spec_height(),
            h > 0,
    {
        proof {
            use_type_invariant(self);
        }
        self.height
    }

    /// Whole frames per second.
    #[verifier::when_used_as_spec(spec_frame_rate)]
    pub fn frame_rate(self) -> (f: u32)
        ensures
            f == self.spec_frame_rate(),
            f > 0,
    {
        proof {
            use_type_invariant(self);
        }
        self.frame_rate
    }

    /// Distance between forced keyframes, in frames: two seconds' worth.
    pub fn keyframe_interval(self) -> (frames: u64)
        ensures
            frames == keyframe_interval(self.spec_frame_rate() as int),
    {
        2 * (self.frame_rate as u64)
    }
}

/// Distance between forced keyframes for a frame rate: twice the rate, so
/// that every two-second segment starts with a keyframe.
pub open spec fn keyframe_interval(frame_rate: int) -> int {
    2 * frame_rate
}

/// Width and height in an answer of the form `{width}x{height}`, surrounded
/// by white space or not. Fields after the second are ignored.
pub open spec fn dimensions_of(answer: Seq<u8>) -> Option<(int, int)> {
    let text = trim(answer);
    let cut = first_index_of(text, 120) as int;
    if cut == text.len() {
        None
    } else {
        let rest = text.skip(cut + 1);
        let width = parse_positive(text.take(cut));
        let height = parse_positive(rest.take(first_index_of(rest, 120) as int));
        match (width, height) {
            (Some(w), Some(h)) => Some((w, h)),
            _ => None,
        }
    }
}

/// The frame rate in an answer of the form `{numerator}/{denominator}`: the
/// numerator alone. An answer without `/` is read as a whole.
pub open spec fn frame_rate_of(answer: Seq<u8>) -> Option<int> {
    parse_positive(answer.take(first_index_of(answer, 47) as int))
}

/// Reads the probing tool's answer to the question for the frame size.
pub fn parse_dimensions(answer: &[u8]) -> (r: Result<(u32, u32), ProbeError>)
    ensures
        match r {
            Ok(d) => dimensions_of(answer@) == Some((d.0 as int, d.1 as int)),
            Err(e) => e == ProbeError::MalformedDimensions && dimensions_of(answer@) is None,
        },
{
    let (start, end) = trim_bounds(answer);
    let cut = find_byte(answer, start, end, 120);
    if cut == end {
        return Err(ProbeError::MalformedDimensions);
    }
    let second_end = find_byte(answer, cut + 1, end, 120);
    proof {
        let text = trim(answer@);
        let rest = text.skip(cut - start + 1);
        assert(rest =~= answer@.subrange(cut + 1, end as int));
        assert(text.take(cut - start) =~= answer@.subrange(start as int, cut as int));
        assert(rest.take(second_end - cut - 1) =~= answer@.subrange(
            cut + 1,
            second_end as int,
        ));
    }
    let width = read_positive(answer, start, cut);
    let height = read_positive(answer, cut + 1, second_end);
    match (width, height) {
        (Some(w), Some(h)) => Ok((w, h)),
        _ => Err(ProbeError::MalformedDimensions),
    }
}

/// Reads the probing tool's answer to the question for the frame rate.
pub fn parse_frame_rate(answer: &[u8]) -> (r: Result<u32, ProbeError>)
    ensures
        match r {
            Ok(f) => frame_rate_of(answer@) == Some(f as int),
            Err(e) => e == ProbeError::MalformedFrameRate && frame_rate_of(answer@) is None,
        },
{
    let cut = find_byte(answer, 0, answer.len(), 47);
    proof {
        assert(answer@.subrange(0, answer@.len() as int) =~= answer@);
        assert(answer@.take(cut as int) =~= answer@.subrange(0, cut as int));
    }
    match read_positive(answer, 0, cut) {
        Some(f) => Ok(f),
        None => Err(ProbeError::MalformedFrameRate),
    }
}

/// Whether `text` is a plain decimal number: at least one digit, and after
/// that either nothing or a point followed by at least one digit. There is
/// no sign, no exponent and no white space.
pub open spec fn plain_decimal(text: Seq<u8>) -> bool {
    let point = first_index_of(text, 46) as int;
    let whole = text.take(point);
    let fraction = text.skip(point + 1);
    &&& whole.len() > 0
    &&& all_digits(whole)
    &&& point == text.len() || (fraction.len() > 0 && all_digits(fraction))
}

/// What the run for the duration yields: the answer without the white space
/// around it, or the reason why it is no duration. A failed run is reported
/// before a malformed answer.
pub open spec fn duration_of(success: bool, answer: Seq<u8>) -> Result<Seq<u8>, ProbeError> {
    if !success {
        Err(ProbeError::ToolFailed)
    } else if !plain_decimal(trim(answer)) {
        Err(ProbeError::MalformedDuration)
    } else {
        Ok(trim(answer))
    }
}

/// Checks the probing tool's run for the duration and finds the number in
/// its answer: `run.stdout[bounds.0..bounds.1]` is the duration in seconds
/// as a plain decimal number.
pub fn check_duration(run: &ToolOutput) -> (r: Result<(usize, usize), ProbeError>)
    ensures
        match r {
            Ok(bounds) => {
                &&& run.success
                &&& bounds.0 <= bounds.1 <= run.stdout@.len()
                &&& run.stdout@.subrange(bounds.0 as int, bounds.1 as int) == trim(run.stdout@)
                &&& plain_decimal(trim(run.stdout@))
                &&& duration_of(run.success, run.stdout@) == Ok::<Seq<u8>, ProbeError>(
                    trim(run.stdout@),
                )
            },
            Err(e) => {
                &&& duration_of(run.success, run.stdout@) == Err::<Seq<u8>, ProbeError>(e)
                &&& (!run.success && e == ProbeError::ToolFailed) || (run.success && !plain_decimal(
                    trim(run.stdout@),
                ) && e == ProbeError::MalformedDuration)
            },
        },
{
    if !run.success {
        return Err(ProbeError::ToolFailed);
    }
    let answer = run.stdout.as_slice();
    let (start, end) = trim_bounds(answer);
    let point = find_byte(answer, start, end, 46);
    proof {
        let text = trim(answer@);
        assert(text.take(point - start) =~= answer@.subrange(start as int, point as int));
        if point < end {
            assert(text.skip(point - start + 1) =~= answer@.subrange(point + 1, end as int));
        }
    }
    if point == start || !digits_only(answer, start, point) {
        return Err(ProbeError::MalformedDuration);
    }
    if point < end && (point + 1 == end || !digits_only(answer, point + 1, end)) {
        return Err(ProbeError::MalformedDuration);
    }
    Ok((start, end))
}

/// What probing yields for the two tool runs: the frame size and rate, or
/// the reason why there is none. A failed run is reported before a malformed
/// answer, and the frame size before the frame rate.
pub open spec fn probe_of(
    dimensions_ok: bool,
    dimensions: Seq<u8>,
    frame_rate_ok: bool,
    frame_rate: Seq<u8>,
) -> Result<(int, int, int), ProbeError> {
    if !dimensions_ok || !frame_rate_ok {
        Err(ProbeError::ToolFailed)
    } else {
        match (dimensions_of(dimensions), frame_rate_of(frame_rate)) {
            (None, _) => Err(ProbeError::MalformedDimensions),
            (Some(_), None) => Err(ProbeError::MalformedFrameRate),
            (Some((width, height)), Some(rate)) => Ok((width, height, rate)),
        }
    }
}

/// Assembles the probe of a source from the tool's two runs.
pub fn probe_source(dimensions: &ToolOutput, frame_rate: &ToolOutput) -> (r: Result<
    SourceProbe,
    ProbeError,
>)
    ensures
        match r {
            Ok(p) => probe_of(
                dimensions.success,
                dimensions.stdout@,
                frame_rate.success,
                frame_rate.stdout@,
            ) == Ok::<(int, int, int), ProbeError>(
                (p.spec_width() as int, p.spec_height() as int, p.spec_frame_rate() as int),
            ),
            Err(e) => probe_of(
                dimensions.success,
                dimensions.stdout@,
                frame_rate.success,
                frame_rate.stdout@,
            ) == Err::<(int, int, int), ProbeError>(e),
        },
{
    if !dimensions.success || !frame_rate.success {
        return Err(ProbeError::ToolFailed);
    }
    let (width, height) = match parse_dimensions(dimensions.stdout.as_slice()) {
        Ok(d) => d,
        Err(e) => {
            return Err(e);
        },
    };
    let rate = match parse_frame_rate(frame_rate.stdout.as_slice()) {
        Ok(f) => f,
        Err(e) => {
            return Err(e);
        },
    };
    Ok(SourceProbe { width, height, frame_rate: rate })
}

/// Arguments that make the probing tool print the frame size of `source` as
/// `{width}x{height}`.
pub open spec fn dimensions_query(source: Seq<char>) -> Seq<Seq<char>> {
    seq![
        "-v"@,
        "error"@,
        "-select_streams"@,
        "v:0"@,
        "-show_entries"@,
        "stream=width,height"@,
        "-of"@,
        "csv=s=x:p=0"@,
        "-i"@,
        source,
    ]
}

/// Arguments that make the probing tool print the frame rate of `source` as
/// `{numerator}/{denominator}`.
pub open spec fn frame_rate_query(source: Seq<char>) -> Seq<Seq<char>> {
    seq![
        "-v"@,
        "error"@,
        "-select_streams"@,
        "v:0"@,
        "-show_entries"@,
        "stream=r_frame_rate"@,
        "-of"@,
        "csv=s=x:p=0"@,
        source,
    ]
}

/// Arguments that make the probing tool print the duration of `source` in
/// seconds.
pub open spec fn duration_query(source: Seq<char>) -> Seq<Seq<char>> {
    seq![
        "-v"@,
        "error"@,
        "-select_streams"@,
        "v:0"@,
        "-show_entries"@,
        "stream=duration"@,
        "-of"@,
        "default=noprint_wrappers=1:nokey=1"@,
        source,
    ]
}

fn query_head(entries: &str, format: &str) -> (args: Vec<String>)
    ensures
        args.deep_view() == seq![
            "-v"@,
            "error"@,
            "-select_streams"@,
            "v:0"@,
            "-show_entries"@,
            entries@,
            "-of"@,
            format@,
        ],
{
    let mut args: Vec<String> = Vec::new();
    assert(args.deep_view() =~= Seq::<Seq<char>>::empty());
    push_text(&mut args, "-v");
    push_text(&mut args, "error");
    push_text(&mut args, "-select_streams");
    push_text(&mut args, "v:0");
    push_text(&mut args, "-show_entries");
    push_text(&mut args, entries);
    push_text(&mut args, "-of");
    push_text(&mut args, format);
    args
}

/// The probing tool's arguments for the frame size of `source`.
pub fn dimensions_arguments(source: &str) -> (args: Vec<String>)
    ensures
        args.deep_view() == dimensions_query(source@),
{
    let mut args = query_head("stream=width,height", "csv=s=x:p=0");
    push_text(&mut args, "-i");
    push_text(&mut args, source);
    args
}

/// The probing tool's arguments for the frame rate of `source`.
pub fn frame_rate_arguments(source: &str) -> (args: Vec<String>)
    ensures
        args.deep_view() == frame_rate_query(source@),
{
    let mut args = query_head("stream=r_frame_rate", "csv=s=x:p=0");
    push_text(&mut args, source);
    args
}

/// The probing tool's arguments for the duration of `source`.
pub fn duration_arguments(source: &str) -> (args: Vec<String>)
    ensures
        args.deep_view() == duration_query(source@),
{
    let mut args = query_head("stream=duration", "default=noprint_wrappers=1:nokey=1");
    push_text(&mut args, source);
    args
}

} // verus!
