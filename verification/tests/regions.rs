use makepython_nrf52840::checksum::crc;
use makepython_nrf52840::screen::{build_app_regions, AppScreenRegion, Rect, ScreenRegions};
use makepython_nrf52840::start;

#[test]
fn every_configured_identity_gets_its_rectangle() {
    let board = start();
    let circle = board.platform.screen.region_for(crc(b"circle"));
    assert_eq!(circle, Some(Rect { x: 0, y: 0, width: 64, height: 64 }));
    let count = board.platform.screen.region_for(crc(b"count"));
    assert_eq!(count, Some(Rect { x: 64, y: 0, width: 64, height: 32 }));
    let scroll = board.platform.screen.region_for(crc(b"tock-scroll"));
    assert_eq!(scroll, Some(Rect { x: 64, y: 32, width: 64, height: 32 }));
}

#[test]
fn a_name_not_in_the_configuration_gets_no_region() {
    let board = start();
    assert_eq!(board.platform.screen.region_for(crc(b"intruder")), None);
    assert_eq!(board.platform.screen.region_for(crc(b"")), None);
    assert_eq!(board.platform.screen.region_for(0), None);
    assert_eq!(board.platform.screen.region_for(1), None);
}

#[test]
fn region_lookup_is_deterministic() {
    let board = start();
    for id in [crc(b"circle"), crc(b"count"), crc(b"tock-scroll"), crc(b"absent"), 0] {
        let first = board.platform.screen.region_for(id);
        let second = board.platform.screen.region_for(id);
        assert_eq!(first, second);
    }
}

#[test]
fn configured_regions_have_nonzero_identities() {
    let regions = build_app_regions();
    assert_eq!(regions.len(), 3);
    for region in &regions {
        assert_ne!(region.app_id, 0);
    }
}

#[test]
fn configured_rectangles_are_pairwise_disjoint() {
    let regions = ScreenRegions::new(build_app_regions());
    let n = regions.len();
    for i in 0..n {
        for j in 0..n {
            if i != j {
                let a = regions.entry(i).frame;
                let b = regions.entry(j).frame;
                let disjoint = a.x + a.width <= b.x
                    || b.x + b.width <= a.x
                    || a.y + a.height <= b.y
                    || b.y + b.height <= a.y;
                assert!(disjoint);
            }
        }
    }
}

#[test]
fn first_matching_entry_wins_when_an_identity_repeats() {
    let mut entries = Vec::new();
    entries.push(AppScreenRegion::new(7, 0, 0, 10, 10));
    entries.push(AppScreenRegion::new(7, 20, 20, 10, 10));
    let regions = ScreenRegions::new(entries);
    assert_eq!(regions.region_for(7), Some(Rect { x: 0, y: 0, width: 10, height: 10 }));
}
