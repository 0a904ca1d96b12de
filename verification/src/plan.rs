//! The two encode plans: the argument lists of the accelerated and of the
//! software encode for one ladder.

use vstd::prelude::*;
use vstd::string::StringExecFns;
use crate::args::{join, join_texts, push_all, push_string, push_text};
use crate::decimal::{decimal, decimal_string, push_decimal};
use crate::ladder::{catalog, Ladder, Rendition};
use crate::probe::{keyframe_interval, SourceProbe};

verus! {

/// Target duration of one HLS segment, in seconds.
pub const SEGMENT_SECONDS: u64 = 2;

/// The axis that an accelerated output is scaled to; the other one follows
/// in proportion.
#[derive(Clone, Copy, Debug, PartialEq, Eq, Structural)]
pub enum ScaleAxis {
    /// Scale to the rendition's height.
    Height,
    /// Scale to the rendition's width.
    Width,
}

/// The axis along which `r` is scaled for a source of the given size: the
/// height when the ratio of the rendition's width to the source's, times the
/// source's height, exceeds the rendition's height; the width otherwise. The
/// ratio is exact, so the test is taken multiplied out by the source's width.
pub open spec fn scale_axis(r: Rendition, source_width: int, source_height: int) -> ScaleAxis {
    if r.width * source_height > r.height * source_width {
        ScaleAxis::Height
    } else {
        ScaleAxis::Width
    }
}

/// Ceiling of the video bitrate in kbit/s: 1.07 times the target, to the
/// nearest whole number.
pub open spec fn max_rate_kbps(video_kbps: int) -> int {
    (video_kbps * 107 + 50) / 100
}

/// Size of the rate-control buffer in kbit: 1.5 times the target bitrate, to
/// the nearest whole number.
pub open spec fn buffer_size_kbps(video_kbps: int) -> int {
    (video_kbps * 3 + 1) / 2
}

/// A bitrate as the encoder reads it: the number followed by `k`.
pub open spec fn kilobits(n: int) -> Seq<char> {
    decimal(n as nat) + "k"@
}

/// The video filter of an accelerated output.
pub open spec fn scale_filter(r: Rendition, axis: ScaleAxis) -> Seq<char> {
    match axis {
        ScaleAxis::Height => "hwupload_cuda,scale_npp=w=-2:h="@ + decimal(r.height as nat),
        ScaleAxis::Width => "hwupload_cuda,scale_npp=w="@ + decimal(r.width as nat) + ":h=-2"@,
    }
}

/// Name pattern of the segments of an accelerated output.
pub open spec fn segment_pattern(target: Seq<char>, r: Rendition) -> Seq<char> {
    target + "/"@ + decimal(r.height as nat) + "p_%03d.ts"@
}

/// Path of the variant playlist of an accelerated output.
pub open spec fn variant_playlist(target: Seq<char>, r: Rendition) -> Seq<char> {
    target + "/"@ + decimal(r.height as nat) + "p.m3u8"@
}

/// Arguments that open the accelerated encode: hardware decode of `source`.
pub open spec fn accelerated_input(source: Seq<char>) -> Seq<Seq<char>> {
    seq![
        "-hide_banner"@,
        "-y"@,
        "-hwaccel"@,
        "cuvid"@,
        "-hwaccel_output_format"@,
        "cuda"@,
        "-vsync"@,
        "0"@,
        "-i"@,
        source,
    ]
}

/// Arguments of one accelerated output.
pub open spec fn accelerated_output(
    target: Seq<char>,
    r: Rendition,
    axis: ScaleAxis,
    keyframes: int,
) -> Seq<Seq<char>> {
    seq![
        "-c:a"@,
        "aac"@,
        "-ar"@,
        "48000"@,
        "-c:v"@,
        "h264_nvenc"@,
        "-rc:v"@,
        "vbr_hq"@,
        "-cq:v"@,
        "19"@,
        "-profile:v"@,
        "main"@,
        "-sc_threshold"@,
        "0"@,
        "-hls_playlist_type"@,
        "vod"@,
        "-g"@,
        decimal(keyframes as nat),
        "-keyint_min"@,
        decimal(keyframes as nat),
        "-hls_time"@,
        decimal(SEGMENT_SECONDS as nat),
        "-vf"@,
        scale_filter(r, axis),
        "-b:v"@,
        decimal(r.video_bitrate_kbps as nat),
        "-maxrate"@,
        kilobits(max_rate_kbps(r.video_bitrate_kbps as int)),
        "-bufsize"@,
        kilobits(buffer_size_kbps(r.video_bitrate_kbps as int)),
        "-b:a"@,
        kilobits(r.audio_bitrate_kbps as int),
        "-hls_segment_filename"@,
        segment_pattern(target, r),
        variant_playlist(target, r),
    ]
}

/// The accelerated outputs of a ladder, one group of arguments per rendition.
pub open spec fn accelerated_outputs(
    target: Seq<char>,
    ladder: Seq<Rendition>,
    source_width: int,
    source_height: int,
    keyframes: int,
) -> Seq<Seq<Seq<char>>> {
    Seq::new(
        ladder.len(),
        |i: int|
            accelerated_output(
                target,
                ladder[i],
                scale_axis(ladder[i], source_width, source_height),
                keyframes,
            ),
    )
}

/// The whole argument list of the accelerated encode.
pub open spec fn accelerated_plan(
    source: Seq<char>,
    target: Seq<char>,
    ladder: Seq<Rendition>,
    source_width: int,
    source_height: int,
    keyframes: int,
) -> Seq<Seq<char>> {
    accelerated_input(source) + accelerated_outputs(
        target,
        ladder,
        source_width,
        source_height,
        keyframes,
    ).flatten()
}

/// The axis is a matter of the width ratio and the two heights alone: two
/// sources for which the ratio of the rendition's width to the source's is
/// the same, and the heights agree, are scaled along the same axis.
pub proof fn lemma_scale_axis_follows_ratio(
    r: Rendition,
    other: Rendition,
    source_width: int,
    other_source_width: int,
    source_height: int,
)
    requires
        source_width > 0,
        other_source_width > 0,
        r.width * other_source_width == other.width * source_width,
        r.height == other.height,
    ensures
        scale_axis(r, source_width, source_height) == scale_axis(
            other,
            other_source_width,
            source_height,
        ),
{
    let a = r.width as int;
    let b = other.width as int;
    let h = r.height as int;
    assert((a * source_height > h * source_width) == (b * source_height > h * other_source_width))
        by (nonlinear_arith)
        requires
            source_width > 0,
            other_source_width > 0,
            a * other_source_width == b * source_width,
    ;
}

/// Scaling along the chosen axis never gives a frame taller than the
/// rendition: along the height the frame has the rendition's height, and
/// along the width the height that follows in proportion stays within it.
pub proof fn lemma_scaled_height_fits(r: Rendition, source_width: int, source_height: int)
    requires
        source_width > 0,
        source_height >= 0,
    ensures
        scale_axis(r, source_width, source_height) == ScaleAxis::Width ==> (r.width
            * source_height) / source_width <= r.height,
        scale_axis(r, source_width, source_height) == ScaleAxis::Height ==> (r.width
            * source_height) / source_width >= r.height,
{
    let a = r.width as int;
    let h = r.height as int;
    if a * source_height <= h * source_width {
        assert((a * source_height) / source_width <= h) by (nonlinear_arith)
            requires
                source_width > 0,
                a * source_height <= h * source_width,
        ;
    } else {
        assert((a * source_height) / source_width >= h) by (nonlinear_arith)
            requires
                source_width > 0,
                a * source_height > h * source_width,
        ;
    }
}

/// For the bitrates of the catalog no rounding takes place: the ceiling is
/// 1.07 times and the buffer 1.5 times the target bitrate exactly.
pub proof fn lemma_catalog_rates_are_exact(index: int)
    requires
        0 <= index < catalog().len(),
    ensures
        100 * max_rate_kbps(catalog()[index].video_bitrate_kbps as int) == 107
            * catalog()[index].video_bitrate_kbps,
        2 * buffer_size_kbps(catalog()[index].video_bitrate_kbps as int) == 3
            * catalog()[index].video_bitrate_kbps,
{
}

/// Every output of both plans forces keyframes at the same distance, the
/// one the plan was built with, as group size and as minimum interval.
pub proof fn lemma_keyframe_interval_is_shared(
    target: Seq<char>,
    ladder: Seq<Rendition>,
    source_width: int,
    source_height: int,
    keyframes: int,
    index: int,
)
    requires
        0 <= index < ladder.len(),
    ensures
        accelerated_outputs(target, ladder, source_width, source_height, keyframes)[index].subrange(
            16,
            20,
        ) == seq!["-g"@, decimal(keyframes as nat), "-keyint_min"@, decimal(keyframes as nat)],
        software_outputs(ladder, keyframes)[index].subrange(16, 20) == seq![
            "-g"@,
            decimal(keyframes as nat),
            "-keyint_min"@,
            decimal(keyframes as nat),
        ],
{
    assert(accelerated_outputs(
        target,
        ladder,
        source_width,
        source_height,
        keyframes,
    )[index].subrange(16, 20) =~= seq![
        "-g"@,
        decimal(keyframes as nat),
        "-keyint_min"@,
        decimal(keyframes as nat),
    ]);
    assert(software_outputs(ladder, keyframes)[index].subrange(16, 20) =~= seq![
        "-g"@,
        decimal(keyframes as nat),
        "-keyint_min"@,
        decimal(keyframes as nat),
    ]);
}

proof fn lemma_product_fits(a: u32, b: u32)
    ensures
        0 <= a * b <= u64::MAX,
{
    assert(0 <= a * b <= 0xffff_ffff * 0xffff_ffff) by (nonlinear_arith)
        requires
            0 <= a <= 0xffff_ffff,
            0 <= b <= 0xffff_ffff,
    ;
}

/// Decides the axis along which an accelerated output is scaled.
pub fn choose_scale_axis(r: &Rendition, source_width: u32, source_height: u32) -> (axis: ScaleAxis)
    requires
        source_width > 0,
    ensures
        axis == scale_axis(*r, source_width as int, source_height as int),
{
    proof {
        lemma_product_fits(r.width, source_height);
        lemma_product_fits(r.height, source_width);
    }
    let scaled: u64 = (r.width as u64) * (source_height as u64);
    let bound: u64 = (r.height as u64) * (source_width as u64);
    if scaled > bound {
        ScaleAxis::Height
    } else {
        ScaleAxis::Width
    }
}

/// Ceiling of the video bitrate in kbit/s.
pub fn max_rate(video_kbps: u32) -> (rate: u64)
    ensures
        rate == max_rate_kbps(video_kbps as int),
{
    (video_kbps as u64 * 107 + 50) / 100
}

/// Size of the rate-control buffer in kbit.
pub fn buffer_size(video_kbps: u32) -> (size: u64)
    ensures
        size == buffer_size_kbps(video_kbps as int),
{
    (video_kbps as u64 * 3 + 1) / 2
}

fn kilobits_text(n: u64) -> (text: String)
    ensures
        text@ == kilobits(n as int),
{
    let mut text = decimal_string(n);
    text.append("k");
    text
}

fn scale_filter_text(r: &Rendition, axis: ScaleAxis) -> (text: String)
    ensures
        text@ == scale_filter(*r, axis),
{
    match axis {
        ScaleAxis::Height => {
            let mut text = String::from_str("hwupload_cuda,scale_npp=w=-2:h=");
            push_decimal(&mut text, r.height as u64);
            text
        },
        ScaleAxis::Width => {
            let mut text = String::from_str("hwupload_cuda,scale_npp=w=");
            push_decimal(&mut text, r.width as u64);
            text.append(":h=-2");
            text
        },
    }
}

fn rendition_path(target: &str, r: &Rendition, tail: &str) -> (text: String)
    ensures
        text@ == target@ + "/"@ + decimal(r.height as nat) + tail@,
{
    let mut text = String::from_str(target);
    text.append("/");
    push_decimal(&mut text, r.height as u64);
    text.append(tail);
    text
}

/// Builds the arguments of one accelerated output.
pub fn accelerated_output_arguments(
    target: &str,
    r: &Rendition,
    axis: ScaleAxis,
    keyframes: u64,
) -> (group: Vec<String>)
    ensures
        group.deep_view() == accelerated_output(target@, *r, axis, keyframes as int),
{
    let mut group: Vec<String> = Vec::new();
    assert(group.deep_view() =~= Seq::<Seq<char>>::empty());
    push_text(&mut group, "-c:a");
    push_text(&mut group, "aac");
    push_text(&mut group, "-ar");
    push_text(&mut group, "48000");
    push_text(&mut group, "-c:v");
    push_text(&mut group, "h264_nvenc");
    push_text(&mut group, "-rc:v");
    push_text(&mut group, "vbr_hq");
    push_text(&mut group, "-cq:v");
    push_text(&mut group, "19");
    push_text(&mut group, "-profile:v");
    push_text(&mut group, "main");
    push_text(&mut group, "-sc_threshold");
    push_text(&mut group, "0");
    push_text(&mut group, "-hls_playlist_type");
    push_text(&mut group, "vod");
    push_text(&mut group, "-g");
    push_string(&mut group, decimal_string(keyframes));
    push_text(&mut group, "-keyint_min");
    push_string(&mut group, decimal_string(keyframes));
    push_text(&mut group, "-hls_time");
    push_string(&mut group, decimal_string(SEGMENT_SECONDS));
    push_text(&mut group, "-vf");
    push_string(&mut group, scale_filter_text(r, axis));
    push_text(&mut group, "-b:v");
    push_string(&mut group, decimal_string(r.video_bitrate_kbps as u64));
    push_text(&mut group, "-maxrate");
    push_string(&mut group, kilobits_text(max_rate(r.video_bitrate_kbps)));
    push_text(&mut group, "-bufsize");
    push_string(&mut group, kilobits_text(buffer_size(r.video_bitrate_kbps)));
    push_text(&mut group, "-b:a");
    push_string(&mut group, kilobits_text(r.audio_bitrate_kbps as u64));
    push_text(&mut group, "-hls_segment_filename");
    push_string(&mut group, rendition_path(target, r, "p_%03d.ts"));
    push_string(&mut group, rendition_path(target, r, "p.m3u8"));
    group
}

/// Builds the argument list of the accelerated encode: one hardware decode
/// of `source`, then one hardware encode per rendition of the ladder.
pub fn accelerated_arguments(source: &str, target: &str, ladder: &Ladder, probe: &SourceProbe) -> (args:
    Vec<String>)
    ensures
        args.deep_view() == accelerated_plan(
            source@,
            target@,
            ladder@,
            probe.spec_width() as int,
            probe.spec_height() as int,
            keyframe_interval(probe.spec_frame_rate() as int),
        ),
{
    let keyframes = probe.keyframe_interval();
    let ghost outputs = accelerated_outputs(
        target@,
        ladder@,
        probe.spec_width() as int,
        probe.spec_height() as int,
        keyframes as int,
    );
    let mut args: Vec<String> = Vec::new();
    assert(args.deep_view() =~= Seq::<Seq<char>>::empty());
    push_text(&mut args, "-hide_banner");
    push_text(&mut args, "-y");
    push_text(&mut args, "-hwaccel");
    push_text(&mut args, "cuvid");
    push_text(&mut args, "-hwaccel_output_format");
    push_text(&mut args, "cuda");
    push_text(&mut args, "-vsync");
    push_text(&mut args, "0");
    push_text(&mut args, "-i");
    push_text(&mut args, source);
    assert(args.deep_view() =~= accelerated_input(source@) + outputs.take(0).flatten());
    let count = ladder.split_count();
    let mut i: usize = 0;
    while i < count
        invariant
            i <= count == ladder@.len(),
            outputs == accelerated_outputs(
                target@,
                ladder@,
                probe.spec_width() as int,
                probe.spec_height() as int,
                keyframes as int,
            ),
            args.deep_view() == accelerated_input(source@) + outputs.take(i as int).flatten(),
        decreases count - i,
    {
        let r = ladder.rendition(i);
        let axis = choose_scale_axis(&r, probe.width(), probe.height());
        push_all(&mut args, accelerated_output_arguments(target, &r, axis, keyframes));
        proof {
            assert(outputs.take(i + 1) =~= outputs.take(i as int).push(outputs[i as int]));
            outputs.take(i as int).lemma_flatten_push(outputs[i as int]);
            assert(args.deep_view() =~= accelerated_input(source@) + outputs.take(
                i + 1,
            ).flatten());
        }
        i += 1;
    }
    assert(outputs.take(count as int) =~= outputs);
    args
}

/// Label of the copy of the decoded video that feeds output `index`.
pub open spec fn split_label(index: int) -> Seq<char> {
    "[v"@ + decimal((index + 1) as nat) + "]"@
}

/// Label of the scaled video of output `index`.
pub open spec fn scaled_label(index: int) -> Seq<char> {
    "[v"@ + decimal((index + 1) as nat) + "out]"@
}

/// The filter stage that scales copy `index` to the exact size of `r`.
pub open spec fn scale_stage(index: int, r: Rendition) -> Seq<char> {
    split_label(index) + "scale=w="@ + decimal(r.width as nat) + ":h="@ + decimal(
        r.height as nat,
    ) + scaled_label(index)
}

/// The labels of `count` copies.
pub open spec fn split_labels(count: nat) -> Seq<Seq<char>> {
    Seq::new(count, |i: int| split_label(i))
}

/// The scale stages of a ladder.
pub open spec fn scale_stages(ladder: Seq<Rendition>) -> Seq<Seq<char>> {
    Seq::new(ladder.len(), |i: int| scale_stage(i, ladder[i]))
}

/// The filter graph of the software encode: the decoded video is split into
/// one copy per rendition, and each copy is scaled to its rendition's size.
pub open spec fn filter_graph(ladder: Seq<Rendition>) -> Seq<char> {
    "[0:v]split="@ + decimal(ladder.len()) + join(split_labels(ladder.len()), ""@) + "; "@ + join(
        scale_stages(ladder),
        "; "@,
    )
}

/// An option name that addresses output stream `index`, as in `-b:v:0`.
pub open spec fn stream_option(name: Seq<char>, index: int) -> Seq<char> {
    name + decimal(index as nat)
}

/// The pairing of video and audio stream `index` into one variant.
pub open spec fn stream_pair(index: int) -> Seq<char> {
    "v:"@ + decimal(index as nat) + ",a:"@ + decimal(index as nat)
}

/// The variable-stream map of `count` variants.
pub open spec fn var_stream_map(count: nat) -> Seq<char> {
    join(Seq::new(count, |i: int| stream_pair(i)), " "@)
}

/// Arguments that open the software encode: software decode of `source` and
/// the filter graph.
pub open spec fn software_input(source: Seq<char>, ladder: Seq<Rendition>) -> Seq<Seq<char>> {
    seq!["-hide_banner"@, "-y"@, "-i"@, source, "-filter_complex"@, filter_graph(ladder)]
}

/// Arguments of software output `index`.
pub open spec fn software_output(index: int, r: Rendition, keyframes: int) -> Seq<Seq<char>> {
    seq![
        "-map"@,
        scaled_label(index),
        stream_option("-c:v:"@, index),
        "libx264"@,
        "-x264-params"@,
        "nal-hrd=cbr:force-cfr=1"@,
        stream_option("-b:v:"@, index),
        kilobits(r.video_bitrate_kbps as int),
        stream_option("-maxrate:v:"@, index),
        kilobits(r.video_bitrate_kbps as int),
        stream_option("-minrate:v:"@, index),
        kilobits(r.video_bitrate_kbps as int),
        stream_option("-bufsize:v:"@, index),
        kilobits(buffer_size_kbps(r.video_bitrate_kbps as int)),
        "-preset"@,
        "slow"@,
        "-g"@,
        decimal(keyframes as nat),
        "-keyint_min"@,
        decimal(keyframes as nat),
        "-sc_threshold"@,
        "0"@,
        "-map"@,
        "a:0"@,
        stream_option("-c:a:"@, index),
        "aac"@,
        stream_option("-b:a:"@, index),
        kilobits(r.audio_bitrate_kbps as int),
        "-ac"@,
        "2"@,
    ]
}

/// The software outputs of a ladder, one group of arguments per rendition.
pub open spec fn software_outputs(ladder: Seq<Rendition>, keyframes: int) -> Seq<Seq<Seq<char>>> {
    Seq::new(ladder.len(), |i: int| software_output(i, ladder[i], keyframes))
}

/// Arguments that close the software encode: all outputs go into one HLS
/// stream per variant.
pub open spec fn software_mux(target: Seq<char>, count: nat) -> Seq<Seq<char>> {
    seq![
        "-f"@,
        "hls"@,
        "-hls_time"@,
        decimal(SEGMENT_SECONDS as nat),
        "-hls_playlist_type"@,
        "vod"@,
        "-hls_flags"@,
        "independent_segments"@,
        "-hls_segment_type"@,
        "mpegts"@,
        "-hls_segment_filename"@,
        target + "/stream_%v/data%02d.ts"@,
        "-var_stream_map"@,
        var_stream_map(count),
        target + "/stream_%v/stream.m3u8"@,
    ]
}

/// The whole argument list of the software encode.
pub open spec fn software_plan(
    source: Seq<char>,
    target: Seq<char>,
    ladder: Seq<Rendition>,
    keyframes: int,
) -> Seq<Seq<char>> {
    software_input(source, ladder) + software_outputs(ladder, keyframes).flatten() + software_mux(
        target,
        ladder.len(),
    )
}

fn split_label_text(index: usize) -> (text: String)
    requires
        index < usize::MAX,
    ensures
        text@ == split_label(index as int),
{
    let mut text = String::from_str("[v");
    push_decimal(&mut text, (index + 1) as u64);
    text.append("]");
    text
}

fn scaled_label_text(index: usize) -> (text: String)
    requires
        index < usize::MAX,
    ensures
        text@ == scaled_label(index as int),
{
    let mut text = String::from_str("[v");
    push_decimal(&mut text, (index + 1) as u64);
    text.append("out]");
    text
}

fn scale_stage_text(index: usize, r: &Rendition) -> (text: String)
    requires
        index < usize::MAX,
    ensures
        text@ == scale_stage(index as int, *r),
{
    let mut text = split_label_text(index);
    text.append("scale=w=");
    push_decimal(&mut text, r.width as u64);
    text.append(":h=");
    push_decimal(&mut text, r.height as u64);
    text.append(scaled_label_text(index).as_str());
    text
}

fn stream_option_text(name: &str, index: usize) -> (text: String)
    ensures
        text@ == stream_option(name@, index as int),
{
    let mut text = String::from_str(name);
    push_decimal(&mut text, index as u64);
    text
}

fn stream_pair_text(index: usize) -> (text: String)
    ensures
        text@ == stream_pair(index as int),
{
    let mut text = String::from_str("v:");
    push_decimal(&mut text, index as u64);
    text.append(",a:");
    push_decimal(&mut text, index as u64);
    text
}

/// Builds the filter graph of the software encode for a ladder.
pub fn filter_graph_text(ladder: &Ladder) -> (text: String)
    ensures
        text@ == filter_graph(ladder@),
{
    let count = ladder.split_count();
    let mut labels: Vec<String> = Vec::new();
    let mut stages: Vec<String> = Vec::new();
    assert(labels.deep_view() =~= split_labels(0));
    assert(stages.deep_view() =~= scale_stages(ladder@).take(0));
    let mut i: usize = 0;
    while i < count
        invariant
            i <= count == ladder@.len(),
            count <= 7,
            labels.deep_view() == split_labels(i as nat),
            stages.deep_view() == scale_stages(ladder@).take(i as int),
        decreases count - i,
    {
        let r = ladder.rendition(i);
        push_string(&mut labels, split_label_text(i));
        push_string(&mut stages, scale_stage_text(i, &r));
        proof {
            assert(labels.deep_view() =~= split_labels((i + 1) as nat));
            assert(stages.deep_view() =~= scale_stages(ladder@).take(i + 1));
        }
        i += 1;
    }
    assert(scale_stages(ladder@).take(count as int) =~= scale_stages(ladder@));
    let mut text = String::from_str("[0:v]split=");
    push_decimal(&mut text, count as u64);
    text.append(join_texts(&labels, "").as_str());
    text.append("; ");
    text.append(join_texts(&stages, "; ").as_str());
    text
}

/// Builds the variable-stream map of `count` variants.
pub fn var_stream_map_text(count: usize) -> (text: String)
    ensures
        text@ == var_stream_map(count as nat),
{
    let mut pairs: Vec<String> = Vec::new();
    assert(pairs.deep_view() =~= Seq::new(0, |i: int| stream_pair(i)));
    let mut i: usize = 0;
    while i < count
        invariant
            i <= count,
            pairs.deep_view() == Seq::new(i as nat, |k: int| stream_pair(k)),
        decreases count - i,
    {
        push_string(&mut pairs, stream_pair_text(i));
        assert(pairs.deep_view() =~= Seq::new((i + 1) as nat, |k: int| stream_pair(k)));
        i += 1;
    }
    join_texts(&pairs, " ")
}

/// Builds the arguments of software output `index`.
pub fn software_output_arguments(index: usize, r: &Rendition, keyframes: u64) -> (group: Vec<String>)
    requires
        index < usize::MAX,
    ensures
        group.deep_view() == software_output(index as int, *r, keyframes as int),
{
    let mut group: Vec<String> = Vec::new();
    assert(group.deep_view() =~= Seq::<Seq<char>>::empty());
    push_text(&mut group, "-map");
    push_string(&mut group, scaled_label_text(index));
    push_string(&mut group, stream_option_text("-c:v:", index));
    push_text(&mut group, "libx264");
    push_text(&mut group, "-x264-params");
    push_text(&mut group, "nal-hrd=cbr:force-cfr=1");
    push_string(&mut group, stream_option_text("-b:v:", index));
    push_string(&mut group, kilobits_text(r.video_bitrate_kbps as u64));
    push_string(&mut group, stream_option_text("-maxrate:v:", index));
    push_string(&mut group, kilobits_text(r.video_bitrate_kbps as u64));
    push_string(&mut group, stream_option_text("-minrate:v:", index));
    push_string(&mut group, kilobits_text(r.video_bitrate_kbps as u64));
    push_string(&mut group, stream_option_text("-bufsize:v:", index));
    push_string(&mut group, kilobits_text(buffer_size(r.video_bitrate_kbps)));
    push_text(&mut group, "-preset");
    push_text(&mut group, "slow");
    push_text(&mut group, "-g");
    push_string(&mut group, decimal_string(keyframes));
    push_text(&mut group, "-keyint_min");
    push_string(&mut group, decimal_string(keyframes));
    push_text(&mut group, "-sc_threshold");
    push_text(&mut group, "0");
    push_text(&mut group, "-map");
    push_text(&mut group, "a:0");
    push_string(&mut group, stream_option_text("-c:a:", index));
    push_text(&mut group, "aac");
    push_string(&mut group, stream_option_text("-b:a:", index));
    push_string(&mut group, kilobits_text(r.audio_bitrate_kbps as u64));
    push_text(&mut group, "-ac");
    push_text(&mut group, "2");
    group
}

fn software_mux_arguments(target: &str, count: usize) -> (group: Vec<String>)
    ensures
        group.deep_view() == software_mux(target@, count as nat),
{
    let mut group: Vec<String> = Vec::new();
    assert(group.deep_view() =~= Seq::<Seq<char>>::empty());
    let mut segments = String::from_str(target);
    segments.append("/stream_%v/data%02d.ts");
    let mut playlist = String::from_str(target);
    playlist.append("/stream_%v/stream.m3u8");
    push_text(&mut group, "-f");
    push_text(&mut group, "hls");
    push_text(&mut group, "-hls_time");
    push_string(&mut group, decimal_string(SEGMENT_SECONDS));
    push_text(&mut group, "-hls_playlist_type");
    push_text(&mut group, "vod");
    push_text(&mut group, "-hls_flags");
    push_text(&mut group, "independent_segments");
    push_text(&mut group, "-hls_segment_type");
    push_text(&mut group, "mpegts");
    push_text(&mut group, "-hls_segment_filename");
    push_string(&mut group, segments);
    push_text(&mut group, "-var_stream_map");
    push_string(&mut group, var_stream_map_text(count));
    push_string(&mut group, playlist);
    group
}

/// Builds the argument list of the software encode: one software decode of
/// `source`, the filter graph, one software encode per rendition of the
/// ladder, and the multiplexing into HLS variants.
pub fn software_arguments(source: &str, target: &str, ladder: &Ladder, probe: &SourceProbe) -> (args:
    Vec<String>)
    ensures
        args.deep_view() == software_plan(
            source@,
            target@,
            ladder@,
            keyframe_interval(probe.spec_frame_rate() as int),
        ),
{
    let keyframes = probe.keyframe_interval();
    let ghost outputs = software_outputs(ladder@, keyframes as int);
    let mut args: Vec<String> = Vec::new();
    assert(args.deep_view() =~= Seq::<Seq<char>>::empty());
    push_text(&mut args, "-hide_banner");
    push_text(&mut args, "-y");
    push_text(&mut args, "-i");
    push_text(&mut args, source);
    push_text(&mut args, "-filter_complex");
    push_string(&mut args, filter_graph_text(ladder));
    assert(args.deep_view() =~= software_input(source@, ladder@) + outputs.take(0).flatten());
    let count = ladder.split_count();
    let mut i: usize = 0;
    while i < count
        invariant
            i <= count == ladder@.len(),
            count <= 7,
            outputs == software_outputs(ladder@, keyframes as int),
            args.deep_view() == software_input(source@, ladder@) + outputs.take(
                i as int,
            ).flatten(),
        decreases count - i,
    {
        let r = ladder.rendition(i);
        push_all(&mut args, software_output_arguments(i, &r, keyframes));
        proof {
            assert(outputs.take(i + 1) =~= outputs.take(i as int).push(outputs[i as int]));
            outputs.take(i as int).lemma_flatten_push(outputs[i as int]);
            assert(args.deep_view() =~= software_input(source@, ladder@) + outputs.take(
                i + 1,
            ).flatten());
        }
        i += 1;
    }
    assert(outputs.take(count as int) =~= outputs);
    push_all(&mut args, software_mux_arguments(target, count));
    args
}

} // verus!
