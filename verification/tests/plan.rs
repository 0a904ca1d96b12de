use transcoder::args::{join_texts, push_all, push_string, push_text};
use transcoder::ladder::{catalog_entry, Ladder, Rendition, CATALOG_LEN};
use transcoder::plan::{
    accelerated_arguments, accelerated_output_arguments, buffer_size, choose_scale_axis, filter_graph_text, max_rate, software_arguments,
    software_output_arguments, var_stream_map_text, ScaleAxis, SEGMENT_SECONDS,
};
use transcoder::probe::SourceProbe;

fn texts(items: &[&str]) -> Vec<String> {
    items.iter().map(|s| s.to_string()).collect()
}

#[test]
fn join_puts_separator_between_neighbours() {
    assert_eq!(join_texts(&texts(&[]), ", "), "");
    assert_eq!(join_texts(&texts(&["a"]), ", "), "a");
    assert_eq!(join_texts(&texts(&["a", "b", "c"]), ", "), "a, b, c");
    assert_eq!(join_texts(&texts(&["a", "", "c"]), "-"), "a--c");
    assert_eq!(join_texts(&texts(&["a", "b"]), ""), "ab");
}

#[test]
fn argument_lists_grow_at_the_end() {
    let mut args = texts(&["a"]);
    push_text(&mut args, "b");
    push_string(&mut args, String::from("c"));
    push_all(&mut args, texts(&["d", "e"]));
    push_all(&mut args, Vec::new());
    assert_eq!(args, texts(&["a", "b", "c", "d", "e"]));
}

#[test]
fn max_rate_is_the_bitrate_times_1_07() {
    assert_eq!(max_rate(700), 749);
    assert_eq!(max_rate(1000), 1070);
    assert_eq!(max_rate(1400), 1498);
    assert_eq!(max_rate(2800), 2996);
    assert_eq!(max_rate(5000), 5350);
    assert_eq!(max_rate(12000), 12840);
    assert_eq!(max_rate(30000), 32100);
    assert_eq!(max_rate(0), 0);
    assert_eq!(max_rate(1), 1);
    assert_eq!(max_rate(10), 11);
    assert_eq!(max_rate(u32::MAX), 4595615006);
}

#[test]
fn buffer_size_is_the_bitrate_times_1_5() {
    assert_eq!(buffer_size(700), 1050);
    assert_eq!(buffer_size(1000), 1500);
    assert_eq!(buffer_size(1400), 2100);
    assert_eq!(buffer_size(2800), 4200);
    assert_eq!(buffer_size(5000), 7500);
    assert_eq!(buffer_size(12000), 18000);
    assert_eq!(buffer_size(30000), 45000);
    assert_eq!(buffer_size(0), 0);
    assert_eq!(buffer_size(1), 2);
    assert_eq!(buffer_size(3), 5);
    assert_eq!(buffer_size(u32::MAX), 6442450943);
}

#[test]
fn catalog_rates_agree_with_floating_point() {
    for i in 0..CATALOG_LEN {
        let kbps = catalog_entry(i).video_bitrate_kbps;
        assert_eq!(max_rate(kbps) as f32, (kbps as f32 * 1.07f32).round());
        assert_eq!(buffer_size(kbps) as f32, (kbps as f32 * 1.5f32).round());
    }
}

fn rendition(width: u32, height: u32) -> Rendition {
    Rendition { width, height, video_bitrate_kbps: 700, audio_bitrate_kbps: 128 }
}

#[test]
fn axis_is_the_height_when_the_scaled_source_is_too_tall() {
    let small = catalog_entry(0);
    // 426 * 320 = 136320 > 240 * 480 = 115200
    assert_eq!(choose_scale_axis(&small, 480, 320), ScaleAxis::Height);
    // 426 * 240 = 102240 > 240 * 320 = 76800
    assert_eq!(choose_scale_axis(&small, 320, 240), ScaleAxis::Height);
    // 426 * 1080 = 460080 > 240 * 1440 = 345600
    assert_eq!(choose_scale_axis(&small, 1440, 1080), ScaleAxis::Height);
    assert_eq!(choose_scale_axis(&small, 1080, 1920), ScaleAxis::Height);
    assert_eq!(choose_scale_axis(&small, 100, 300), ScaleAxis::Height);
    assert_eq!(choose_scale_axis(&small, 1, 1), ScaleAxis::Height);
    assert_eq!(choose_scale_axis(&small, 427, 5000), ScaleAxis::Height);
}

#[test]
fn axis_is_the_width_when_the_scaled_source_fits() {
    let small = catalog_entry(0);
    // 426 * 1080 = 460080 <= 240 * 1920 = 460800
    assert_eq!(choose_scale_axis(&small, 1920, 1080), ScaleAxis::Width);
    assert_eq!(choose_scale_axis(&small, 3840, 1080), ScaleAxis::Width);
    assert_eq!(choose_scale_axis(&small, 426, 240), ScaleAxis::Width);
    assert_eq!(choose_scale_axis(&small, 852, 480), ScaleAxis::Width);
    assert_eq!(choose_scale_axis(&small, 1, 0), ScaleAxis::Width);
    // equal products are no excess
    assert_eq!(choose_scale_axis(&catalog_entry(1), 1920, 1080), ScaleAxis::Width);
    assert_eq!(choose_scale_axis(&catalog_entry(3), 1920, 1080), ScaleAxis::Width);
    assert_eq!(choose_scale_axis(&catalog_entry(4), 1920, 1080), ScaleAxis::Width);
}

#[test]
fn axis_at_the_boundary_and_at_the_limits() {
    let r = rendition(400, 200);
    assert_eq!(choose_scale_axis(&r, 800, 400), ScaleAxis::Width);
    assert_eq!(choose_scale_axis(&r, 800, 401), ScaleAxis::Height);
    assert_eq!(choose_scale_axis(&r, 799, 400), ScaleAxis::Height);
    assert_eq!(choose_scale_axis(&r, 801, 400), ScaleAxis::Width);
    let huge = rendition(u32::MAX, u32::MAX);
    assert_eq!(choose_scale_axis(&huge, u32::MAX, u32::MAX), ScaleAxis::Width);
    assert_eq!(choose_scale_axis(&huge, u32::MAX - 1, u32::MAX), ScaleAxis::Height);
    assert_eq!(choose_scale_axis(&huge, u32::MAX, u32::MAX - 1), ScaleAxis::Width);
}

#[test]
fn same_ratio_and_heights_give_same_axis() {
    // 400 / 800 and 200 / 400 are the same ratio
    for source_height in [0u32, 1, 199, 200, 399, 400, 401, 1080, u32::MAX] {
        assert_eq!(
            choose_scale_axis(&rendition(400, 200), 800, source_height),
            choose_scale_axis(&rendition(200, 200), 400, source_height)
        );
        assert_eq!(
            choose_scale_axis(&rendition(426, 240), 480, source_height),
            choose_scale_axis(&rendition(852, 240), 960, source_height)
        );
    }
    let first = choose_scale_axis(&catalog_entry(0), 480, 320);
    for _ in 0..3 {
        assert_eq!(choose_scale_axis(&catalog_entry(0), 480, 320), first);
    }
}

#[test]
fn accelerated_plan_for_a_small_source() {
    let probe = SourceProbe::new(320, 240, 25).unwrap();
    let ladder = Ladder::select(probe.height());
    let args = accelerated_arguments("in.mp4", "out/abc", &ladder, &probe);
    assert_eq!(
        args,
        texts(&[
            "-hide_banner", "-y", "-hwaccel", "cuvid", "-hwaccel_output_format", "cuda",
            "-vsync", "0", "-i", "in.mp4",
            "-c:a", "aac", "-ar", "48000", "-c:v", "h264_nvenc", "-rc:v", "vbr_hq",
            "-cq:v", "19", "-profile:v", "main", "-sc_threshold", "0",
            "-hls_playlist_type", "vod", "-g", "50", "-keyint_min", "50",
            "-hls_time", "2", "-vf", "hwupload_cuda,scale_npp=w=-2:h=240",
            "-b:v", "700", "-maxrate", "749k", "-bufsize", "1050k", "-b:a", "128k",
            "-hls_segment_filename", "out/abc/240p_%03d.ts", "out/abc/240p.m3u8",
        ])
    );
}

#[test]
fn accelerated_plan_scales_each_output_along_its_own_axis() {
    // 4:3 source: every rendition is 16:9 or wider, so each is scaled by height
    let probe = SourceProbe::new(1440, 1080, 30).unwrap();
    let ladder = Ladder::select(probe.height());
    let args = accelerated_arguments("in.mp4", "out", &ladder, &probe);
    assert_eq!(args.len(), 10 + 5 * 35);
    let heights = [240, 360, 480, 720, 1080];
    for i in 0..5 {
        assert_eq!(
            args[10 + 35 * i + 23],
            format!("hwupload_cuda,scale_npp=w=-2:h={}", heights[i])
        );
    }
    // source wider than 16:9: each is scaled by width
    let probe = SourceProbe::new(2560, 1080, 30).unwrap();
    let args = accelerated_arguments("in.mp4", "out", &ladder, &probe);
    let widths = [426, 640, 842, 1280, 1920];
    for i in 0..5 {
        assert_eq!(
            args[10 + 35 * i + 23],
            format!("hwupload_cuda,scale_npp=w={}:h=-2", widths[i])
        );
    }
}

#[test]
fn accelerated_output_scaled_by_height() {
    let r = catalog_entry(4);
    let group = accelerated_output_arguments("/m/v/x", &r, ScaleAxis::Height, 48);
    assert_eq!(
        group,
        texts(&[
            "-c:a", "aac", "-ar", "48000", "-c:v", "h264_nvenc", "-rc:v", "vbr_hq",
            "-cq:v", "19", "-profile:v", "main", "-sc_threshold", "0",
            "-hls_playlist_type", "vod", "-g", "48", "-keyint_min", "48",
            "-hls_time", "2", "-vf", "hwupload_cuda,scale_npp=w=-2:h=1080",
            "-b:v", "5000", "-maxrate", "5350k", "-bufsize", "7500k", "-b:a", "384k",
            "-hls_segment_filename", "/m/v/x/1080p_%03d.ts", "/m/v/x/1080p.m3u8",
        ])
    );
}

#[test]
fn accelerated_plan_has_one_output_per_rendition() {
    let probe = SourceProbe::new(1920, 1080, 30).unwrap();
    let ladder = Ladder::select(probe.height());
    let args = accelerated_arguments("/up/videos/a.mp4", "/media/videos/a", &ladder, &probe);
    assert_eq!(args.len(), 10 + 5 * 35);
    assert_eq!(args[9], "/up/videos/a.mp4");
    let heights = [240, 360, 480, 720, 1080];
    let widths = [426, 640, 842, 1280, 1920];
    for i in 0..5 {
        let group = &args[10 + 35 * i..10 + 35 * (i + 1)];
        let expected = accelerated_output_arguments(
            "/media/videos/a",
            &catalog_entry(i),
            ScaleAxis::Width,
            60,
        );
        assert_eq!(group, &expected[..]);
        assert_eq!(group[16], "-g");
        assert_eq!(group[17], "60");
        assert_eq!(group[18], "-keyint_min");
        assert_eq!(group[19], "60");
        assert_eq!(group[23], format!("hwupload_cuda,scale_npp=w={}:h=-2", widths[i]));
        assert_eq!(group[33], format!("/media/videos/a/{}p_%03d.ts", heights[i]));
        assert_eq!(group[34], format!("/media/videos/a/{}p.m3u8", heights[i]));
    }
}

#[test]
fn filter_graph_splits_and_scales() {
    assert_eq!(
        filter_graph_text(&Ladder::select(100)),
        "[0:v]split=1[v1]; [v1]scale=w=426:h=240[v1out]"
    );
    assert_eq!(
        filter_graph_text(&Ladder::select(480)),
        "[0:v]split=3[v1][v2][v3]; [v1]scale=w=426:h=240[v1out]; \
         [v2]scale=w=640:h=360[v2out]; [v3]scale=w=842:h=480[v3out]"
    );
    assert_eq!(
        filter_graph_text(&Ladder::select(2160)),
        "[0:v]split=7[v1][v2][v3][v4][v5][v6][v7]; [v1]scale=w=426:h=240[v1out]; \
         [v2]scale=w=640:h=360[v2out]; [v3]scale=w=842:h=480[v3out]; \
         [v4]scale=w=1280:h=720[v4out]; [v5]scale=w=1920:h=1080[v5out]; \
         [v6]scale=w=2560:h=1440[v6out]; [v7]scale=w=3840:h=2160[v7out]"
    );
}

#[test]
fn var_stream_map_pairs_video_and_audio() {
    assert_eq!(var_stream_map_text(0), "");
    assert_eq!(var_stream_map_text(1), "v:0,a:0");
    assert_eq!(var_stream_map_text(3), "v:0,a:0 v:1,a:1 v:2,a:2");
    assert_eq!(
        var_stream_map_text(11),
        "v:0,a:0 v:1,a:1 v:2,a:2 v:3,a:3 v:4,a:4 v:5,a:5 v:6,a:6 v:7,a:7 v:8,a:8 v:9,a:9 \
         v:10,a:10"
    );
}

#[test]
fn software_plan_for_a_small_source() {
    let probe = SourceProbe::new(320, 240, 25).unwrap();
    let ladder = Ladder::select(probe.height());
    let args = software_arguments("in.mp4", "out/abc", &ladder, &probe);
    assert_eq!(
        args,
        texts(&[
            "-hide_banner", "-y", "-i", "in.mp4", "-filter_complex",
            "[0:v]split=1[v1]; [v1]scale=w=426:h=240[v1out]",
            "-map", "[v1out]", "-c:v:0", "libx264", "-x264-params", "nal-hrd=cbr:force-cfr=1",
            "-b:v:0", "700k", "-maxrate:v:0", "700k", "-minrate:v:0", "700k",
            "-bufsize:v:0", "1050k", "-preset", "slow", "-g", "50", "-keyint_min", "50",
            "-sc_threshold", "0", "-map", "a:0", "-c:a:0", "aac", "-b:a:0", "128k",
            "-ac", "2",
            "-f", "hls", "-hls_time", "2", "-hls_playlist_type", "vod", "-hls_flags",
            "independent_segments", "-hls_segment_type", "mpegts", "-hls_segment_filename",
            "out/abc/stream_%v/data%02d.ts", "-var_stream_map", "v:0,a:0",
            "out/abc/stream_%v/stream.m3u8",
        ])
    );
}

#[test]
fn software_output_of_a_later_stream() {
    let group = software_output_arguments(4, &catalog_entry(4), 60);
    assert_eq!(
        group,
        texts(&[
            "-map", "[v5out]", "-c:v:4", "libx264", "-x264-params", "nal-hrd=cbr:force-cfr=1",
            "-b:v:4", "5000k", "-maxrate:v:4", "5000k", "-minrate:v:4", "5000k",
            "-bufsize:v:4", "7500k", "-preset", "slow", "-g", "60", "-keyint_min", "60",
            "-sc_threshold", "0", "-map", "a:0", "-c:a:4", "aac", "-b:a:4", "384k",
            "-ac", "2",
        ])
    );
}

#[test]
fn software_plan_has_one_output_per_rendition() {
    let probe = SourceProbe::new(1920, 1080, 30).unwrap();
    let ladder = Ladder::select(probe.height());
    let args = software_arguments("/up/videos/a.mp4", "/media/videos/a", &ladder, &probe);
    assert_eq!(args.len(), 6 + 5 * 30 + 15);
    assert_eq!(args[5], filter_graph_text(&ladder));
    for i in 0..5 {
        let group = &args[6 + 30 * i..6 + 30 * (i + 1)];
        assert_eq!(group, &software_output_arguments(i, &catalog_entry(i), 60)[..]);
        assert_eq!(group[17], "60");
        assert_eq!(group[19], "60");
    }
    let tail = &args[6 + 150..];
    assert_eq!(tail[3], SEGMENT_SECONDS.to_string());
    assert_eq!(tail[11], "/media/videos/a/stream_%v/data%02d.ts");
    assert_eq!(tail[13], "v:0,a:0 v:1,a:1 v:2,a:2 v:3,a:3 v:4,a:4");
    assert_eq!(tail[14], "/media/videos/a/stream_%v/stream.m3u8");
}
