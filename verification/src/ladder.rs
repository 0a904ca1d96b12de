//! The rendition catalog and the selection of a ladder for a source height.

use vstd::prelude::*;

verus! {

/// One quality tier: a frame size together with its video and audio bitrates.
#[derive(Clone, Copy, Debug, PartialEq, Eq, Structural)]
pub struct Rendition {
    pub width: u32,
    pub height: u32,
    pub video_bitrate_kbps: u32,
    pub audio_bitrate_kbps: u32,
}

/// Number of entries in the catalog.
pub const CATALOG_LEN: usize = 7;

/// The catalog, ordered by ascending height.
pub open spec fn catalog() -> Seq<Rendition> {
    seq![
        Rendition { width: 426, height: 240, video_bitrate_kbps: 700, audio_bitrate_kbps: 128 },
        Rendition { width: 640, height: 360, video_bitrate_kbps: 1000, audio_bitrate_kbps: 192 },
        Rendition { width: 842, height: 480, video_bitrate_kbps: 1400, audio_bitrate_kbps: 256 },
        Rendition { width: 1280, height: 720, video_bitrate_kbps: 2800, audio_bitrate_kbps: 256 },
        Rendition { width: 1920, height: 1080, video_bitrate_kbps: 5000, audio_bitrate_kbps: 384 },
        Rendition { width: 2560, height: 1440, video_bitrate_kbps: 12000, audio_bitrate_kbps: 384 },
        Rendition { width: 3840, height: 2160, video_bitrate_kbps: 30000, audio_bitrate_kbps: 512 },
    ]
}

/// The catalog entry at `index`.
pub fn catalog_entry(index: usize) -> (r: Rendition)
    requires
        index < CATALOG_LEN,
    ensures
        r == catalog()[index as int],
{
    if index == 0 {
        Rendition { width: 426, height: 240, video_bitrate_kbps: 700, audio_bitrate_kbps: 128 }
    } else if index == 1 {
        Rendition { width: 640, height: 360, video_bitrate_kbps: 1000, audio_bitrate_kbps: 192 }
    } else if index == 2 {
        Rendition { width: 842, height: 480, video_bitrate_kbps: 1400, audio_bitrate_kbps: 256 }
    } else if index == 3 {
        Rendition { width: 1280, height: 720, video_bitrate_kbps: 2800, audio_bitrate_kbps: 256 }
    } else if index == 4 {
        Rendition { width: 1920, height: 1080, video_bitrate_kbps: 5000, audio_bitrate_kbps: 384 }
    } else if index == 5 {
        Rendition { width: 2560, height: 1440, video_bitrate_kbps: 12000, audio_bitrate_kbps: 384 }
    } else {
        Rendition { width: 3840, height: 2160, video_bitrate_kbps: 30000, audio_bitrate_kbps: 512 }
    }
}

/// Index of the last entry among the first `n` catalog entries whose height
/// does not exceed `source_height`; 0 when no entry after the first qualifies.
pub open spec fn cutoff_within(source_height: int, n: nat) -> nat
    decreases n,
{
    if n <= 1 {
        0
    } else if catalog()[n - 1].height <= source_height {
        (n - 1) as nat
    } else {
        cutoff_within(source_height, (n - 1) as nat)
    }
}

/// Index of the catalog entry at which the ladder for `source_height` ends.
pub open spec fn cutoff_index(source_height: int) -> nat {
    cutoff_within(source_height, catalog().len())
}

/// Number of parallel output streams for `source_height`.
pub open spec fn split_count(source_height: int) -> nat {
    cutoff_index(source_height) + 1
}

/// The ladder for `source_height`: the catalog up to and including the cutoff.
pub open spec fn ladder_for(source_height: int) -> Seq<Rendition> {
    catalog().take(split_count(source_height) as int)
}

/// Finds the catalog entry at which the ladder for `source_height` ends: the
/// last entry that is no taller than the source, or the first entry when
/// every entry is taller.
pub fn find_cutoff(source_height: u32) -> (index: usize)
    ensures
        index == cutoff_index(source_height as int),
        index < CATALOG_LEN,
{
    let mut cutoff: usize = 0;
    let mut i: usize = 1;
    while i < CATALOG_LEN
        invariant
            1 <= i <= CATALOG_LEN,
            cutoff == cutoff_within(source_height as int, i as nat),
            cutoff < i,
        decreases CATALOG_LEN - i,
    {
        if catalog_entry(i).height <= source_height {
            cutoff = i;
        }
        i += 1;
    }
    cutoff
}

/// An ordered, non-empty run of renditions taken from the front of the catalog.
pub struct Ladder {
    renditions: Vec<Rendition>,
}

impl View for Ladder {
    type V = Seq<Rendition>;

    closed spec fn view(&self) -> Seq<Rendition> {
        self.renditions@
    }
}

impl Ladder {
    #[verifier::type_invariant]
    spec fn inv(self) -> bool {
        &&& 1 <= self.renditions@.len() <= catalog().len()
        &&& self.renditions@ == catalog().take(self.renditions@.len() as int)
    }

    /// Selects the ladder for a source of the given height: every catalog
    /// entry up to the last one that is no taller than the source, and the
    /// first entry alone when the source is smaller than all of them.
    pub fn select(source_height: u32) -> (ladder: Ladder)
        ensures
            ladder@ == ladder_for(source_height as int),
            ladder@.len() == cutoff_index(source_height as int) + 1,
    {
        let cutoff = find_cutoff(source_height);
        let mut renditions: Vec<Rendition> = Vec::new();
        let mut k: usize = 0;
        while k <= cutoff
            invariant
                cutoff < CATALOG_LEN,
                k <= cutoff + 1,
                renditions@ == catalog().take(k as int),
            decreases cutoff + 1 - k,
        {
            renditions.push(catalog_entry(k));
            k += 1;
        }
        Ladder { renditions }
    }

    /// Number of renditions, which is also the number of parallel output
    /// streams of the software encode.
    pub fn split_count(&self) -> (n: usize)
        ensures
            n == self@.len(),
            1 <= n <= CATALOG_LEN,
            self@ == catalog().take(n as int),
    {
        proof {
            use_type_invariant(self);
        }
        self.renditions.len()
    }

    /// The rendition at `index`, counted from the smallest.
    pub fn rendition(&self, index: usize) -> (r: Rendition)
        requires
            index < self@.len(),
        ensures
            r == self@[index as int],
            r == catalog()[index as int],
    {
        proof {
            use_type_invariant(self);
        }
        self.renditions[index]
    }

    /// The renditions in ladder order.
    pub fn renditions(&self) -> (out: Vec<Rendition>)
        ensures
            out@ == self@,
    {
        self.renditions.clone()
    }
}

/// The cutoff is the last catalog entry that is no taller than the source,
/// or the first entry when every entry is taller.
pub proof fn lemma_cutoff_is_last_fitting(source_height: int)
    ensures
        cutoff_index(source_height) < catalog().len(),
        forall|j: int|
            cutoff_index(source_height) < j < catalog().len() ==> (#[trigger] catalog()[j]).height
                > source_height,
        cutoff_index(source_height) > 0 ==> catalog()[cutoff_index(source_height) as int].height
            <= source_height,
{
    reveal_with_fuel(cutoff_within, 8);
}

/// The ladder of any source height is a non-empty prefix of the catalog in
/// strictly ascending height, and no entry after the first is taller than the
/// source.
pub proof fn lemma_ladder_shape(source_height: int)
    ensures
        1 <= ladder_for(source_height).len() <= catalog().len(),
        ladder_for(source_height).len() == split_count(source_height),
        ladder_for(source_height).is_prefix_of(catalog()),
        forall|i: int, j: int|
            0 <= i < j < ladder_for(source_height).len() ==> (#[trigger] ladder_for(
                source_height,
            )[i]).height < (#[trigger] ladder_for(source_height)[j]).height,
        forall|i: int|
            1 <= i < ladder_for(source_height).len() ==> (#[trigger] ladder_for(
                source_height,
            )[i]).height <= source_height,
{
    reveal_with_fuel(cutoff_within, 8);
}

/// A source shorter than the smallest catalog entry still gets that entry,
/// and only that entry.
pub proof fn lemma_small_source_gets_first_entry(source_height: int)
    requires
        source_height < 240,
    ensures
        ladder_for(source_height) == seq![catalog()[0]],
{
    reveal_with_fuel(cutoff_within, 8);
    assert(ladder_for(source_height) =~= seq![catalog()[0]]);
}

/// A source at least as tall as the largest catalog entry gets the whole
/// catalog.
pub proof fn lemma_large_source_gets_whole_catalog(source_height: int)
    requires
        source_height >= 2160,
    ensures
        ladder_for(source_height) == catalog(),
{
    reveal_with_fuel(cutoff_within, 8);
    assert(ladder_for(source_height) =~= catalog());
}

} // verus!
