use transcoder::ladder::{catalog_entry, find_cutoff, Ladder, Rendition, CATALOG_LEN};

fn heights(ladder: &Ladder) -> Vec<u32> {
    ladder.renditions().iter().map(|r| r.height).collect()
}

#[test]
fn catalog_holds_the_seven_tiers() {
    let expected = [
        (426, 240, 700, 128),
        (640, 360, 1000, 192),
        (842, 480, 1400, 256),
        (1280, 720, 2800, 256),
        (1920, 1080, 5000, 384),
        (2560, 1440, 12000, 384),
        (3840, 2160, 30000, 512),
    ];
    assert_eq!(CATALOG_LEN, 7);
    for (i, e) in expected.iter().enumerate() {
        assert_eq!(
            catalog_entry(i),
            Rendition {
                width: e.0,
                height: e.1,
                video_bitrate_kbps: e.2,
                audio_bitrate_kbps: e.3
            }
        );
    }
}

#[test]
fn full_hd_source_gets_first_five_tiers() {
    let ladder = Ladder::select(1080);
    assert_eq!(ladder.split_count(), 5);
    assert_eq!(heights(&ladder), vec![240, 360, 480, 720, 1080]);
    assert_eq!(ladder.rendition(4), catalog_entry(4));
}

#[test]
fn small_source_gets_first_tier_only() {
    let ladder = Ladder::select(240);
    assert_eq!(heights(&ladder), vec![240]);
    for h in [0u32, 1, 100, 239] {
        let ladder = Ladder::select(h);
        assert_eq!(ladder.split_count(), 1);
        assert_eq!(ladder.renditions(), vec![catalog_entry(0)]);
    }
}

#[test]
fn tall_source_gets_whole_catalog() {
    for h in [2160u32, 2161, 4320, u32::MAX] {
        let ladder = Ladder::select(h);
        assert_eq!(ladder.split_count(), 7);
        assert_eq!(heights(&ladder), vec![240, 360, 480, 720, 1080, 1440, 2160]);
    }
}

#[test]
fn cutoff_is_last_tier_not_taller_than_source() {
    assert_eq!(Ladder::select(359).split_count(), 1);
    assert_eq!(Ladder::select(360).split_count(), 2);
    assert_eq!(Ladder::select(479).split_count(), 2);
    assert_eq!(Ladder::select(480).split_count(), 3);
    assert_eq!(Ladder::select(719).split_count(), 3);
    assert_eq!(Ladder::select(720).split_count(), 4);
    assert_eq!(Ladder::select(1079).split_count(), 4);
    assert_eq!(Ladder::select(1439).split_count(), 5);
    assert_eq!(Ladder::select(1440).split_count(), 6);
    assert_eq!(Ladder::select(2159).split_count(), 6);
}

#[test]
fn every_ladder_is_an_ascending_catalog_prefix() {
    for h in (0u32..2400).step_by(7) {
        let ladder = Ladder::select(h);
        let n = ladder.split_count();
        assert!(n >= 1 && n <= CATALOG_LEN);
        let renditions = ladder.renditions();
        assert_eq!(renditions.len(), n);
        for i in 0..n {
            assert_eq!(renditions[i], catalog_entry(i));
            if i > 0 {
                assert!(renditions[i - 1].height < renditions[i].height);
                assert!(renditions[i].height <= h);
            }
        }
        if n < CATALOG_LEN {
            assert!(catalog_entry(n).height > h);
        }
    }
}

#[test]
fn split_count_is_cutoff_index_plus_one() {
    for h in (0u32..4400).step_by(11) {
        assert_eq!(Ladder::select(h).split_count(), find_cutoff(h) + 1);
    }
    assert_eq!(find_cutoff(0), 0);
    assert_eq!(find_cutoff(240), 0);
    assert_eq!(find_cutoff(360), 1);
    assert_eq!(find_cutoff(1080), 4);
    assert_eq!(find_cutoff(2160), 6);
    assert_eq!(find_cutoff(u32::MAX), 6);
}
