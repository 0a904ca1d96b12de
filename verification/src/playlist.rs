//! The HLS master playlist of a ladder.

use vstd::prelude::*;
use vstd::string::StringExecFns;
use crate::args::{join, join_texts, push_string, push_text};
use crate::decimal::{decimal, decimal_value, lemma_decimal_round_trip, push_decimal};
use crate::ladder::{Ladder, Rendition};

verus! {

/// Peak bandwidth of a rendition in bits per second, as the master playlist
/// announces it.
pub open spec fn bandwidth_bps(r: Rendition) -> int {
    r.video_bitrate_kbps * 1000
}

/// The playlist line that announces the variant stream of `r`.
pub open spec fn stream_line(r: Rendition) -> Seq<char> {
    "#EXT-X-STREAM-INF:BANDWIDTH="@ + decimal(bandwidth_bps(r) as nat) + ",RESOLUTION="@ + decimal(
        r.width as nat,
    ) + "x"@ + decimal(r.height as nat)
}

/// The two lines that open every master playlist.
pub open spec fn playlist_header() -> Seq<Seq<char>> {
    seq!["#EXTM3U"@, "#EXT-X-VERSION:3"@]
}

/// The lines of the master playlist of a ladder: the header, then one line
/// per rendition in ladder order.
pub open spec fn master_playlist(ladder: Seq<Rendition>) -> Seq<Seq<char>> {
    playlist_header() + Seq::new(ladder.len(), |i: int| stream_line(ladder[i]))
}

/// The master playlist as it is written to disk: its lines, separated by
/// line feeds.
pub open spec fn master_playlist_text(ladder: Seq<Rendition>) -> Seq<char> {
    join(master_playlist(ladder), "\n"@)
}

/// Where the master playlist of the job in `target` is written.
pub open spec fn playlist_path(target: Seq<char>) -> Seq<char> {
    target + "/playlist.m3u8"@
}

/// The master playlist has one stream line per rendition, in ladder order
/// after the header, and the number that a line gives as `BANDWIDTH` is the
/// rendition's video bitrate in kbit/s times 1000.
pub proof fn lemma_playlist_announces_bandwidth(ladder: Seq<Rendition>, index: int)
    requires
        0 <= index < ladder.len(),
    ensures
        master_playlist(ladder).len() == ladder.len() + 2,
        master_playlist(ladder)[index + 2] == stream_line(ladder[index]),
        ({
            let number = decimal((ladder[index].video_bitrate_kbps * 1000) as nat);
            let field = stream_line(ladder[index]).subrange(28, 28 + number.len() as int);
            field == number && decimal_value(field) == ladder[index].video_bitrate_kbps * 1000
        }),
{
    let r = ladder[index];
    let number = decimal((r.video_bitrate_kbps * 1000) as nat);
    reveal_strlit("#EXTM3U");
    reveal_strlit("#EXT-X-STREAM-INF:BANDWIDTH=");
    assert(stream_line(r).subrange(28, 28 + number.len() as int) =~= number);
    lemma_decimal_round_trip((r.video_bitrate_kbps * 1000) as nat);
}

/// Peak bandwidth of a rendition in bits per second.
pub fn bandwidth(r: &Rendition) -> (bps: u64)
    ensures
        bps == bandwidth_bps(*r),
        bps == r.video_bitrate_kbps * 1000,
{
    r.video_bitrate_kbps as u64 * 1000
}

/// Builds the playlist line that announces the variant stream of `r`.
pub fn stream_line_text(r: &Rendition) -> (line: String)
    ensures
        line@ == stream_line(*r),
{
    let mut line = String::from_str("#EXT-X-STREAM-INF:BANDWIDTH=");
    push_decimal(&mut line, bandwidth(r));
    line.append(",RESOLUTION=");
    push_decimal(&mut line, r.width as u64);
    line.append("x");
    push_decimal(&mut line, r.height as u64);
    line
}

/// Builds the lines of the master playlist of a ladder.
pub fn master_playlist_lines(ladder: &Ladder) -> (lines: Vec<String>)
    ensures
        lines.deep_view() == master_playlist(ladder@),
        lines@.len() == ladder@.len() + 2,
        forall|i: int|
            0 <= i < ladder@.len() ==> (#[trigger] lines@[i + 2])@ == stream_line(ladder@[i]),
{
    let ghost streams = Seq::new(ladder@.len(), |i: int| stream_line(ladder@[i]));
    let mut lines: Vec<String> = Vec::new();
    assert(lines.deep_view() =~= Seq::<Seq<char>>::empty());
    push_text(&mut lines, "#EXTM3U");
    push_text(&mut lines, "#EXT-X-VERSION:3");
    assert(lines.deep_view() =~= playlist_header() + streams.take(0));
    let count = ladder.split_count();
    let mut i: usize = 0;
    while i < count
        invariant
            i <= count == ladder@.len(),
            streams == Seq::new(ladder@.len(), |i: int| stream_line(ladder@[i])),
            lines.deep_view() == playlist_header() + streams.take(i as int),
        decreases count - i,
    {
        let r = ladder.rendition(i);
        push_string(&mut lines, stream_line_text(&r));
        assert(lines.deep_view() =~= playlist_header() + streams.take(i + 1));
        i += 1;
    }
    assert(streams.take(count as int) =~= streams);
    proof {
        assert(lines.deep_view().len() == lines@.len());
        assert forall|i: int| 0 <= i < ladder@.len() implies (#[trigger] lines@[i + 2])@
            == stream_line(ladder@[i]) by {
            assert(lines.deep_view()[i + 2] == lines@[i + 2]@);
        }
    }
    lines
}

/// Builds the master playlist of a ladder as it is written to disk.
pub fn master_playlist_file(ladder: &Ladder) -> (text: String)
    ensures
        text@ == master_playlist_text(ladder@),
{
    let lines = master_playlist_lines(ladder);
    join_texts(&lines, "\n")
}

/// Builds the path at which the master playlist of the job in `target` is
/// written.
pub fn playlist_path_text(target: &str) -> (path: String)
    ensures
        path@ == playlist_path(target@),
{
    let mut path = String::from_str(target);
    path.append("/playlist.m3u8");
    path
}

} // verus!
