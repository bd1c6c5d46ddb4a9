use side_scroller::tiles::TileStrip;

#[test]
fn strip_starts_edge_to_edge() {
    let t = TileStrip::new(272, 3);
    assert_eq!(t.len(), 3);
    assert_eq!(t.offset_at(0), 0);
    assert_eq!(t.offset_at(1), 272);
    assert_eq!(t.offset_at(2), 544);
}

#[test]
fn tile_reaches_left_edge_after_exactly_tile_width_frames() {
    let mut t = TileStrip::new(272, 3);
    for _ in 0..271 {
        t.step();
    }
    assert_eq!(t.offset_at(0), -271);
    t.step();
    assert_eq!(t.offset_at(0), -272);
    // The next frame re-injects the tile at the trailing edge,
    // (count - 1) * 272 = 544, from which it takes that frame's one-pixel
    // scroll step.
    t.step();
    assert_eq!(t.offset_at(0), (3 - 1) * 272 - 1);
}

#[test]
fn offsets_stay_in_band_over_full_cycle() {
    let mut t = TileStrip::new(272, 3);
    let hi: i32 = (3 - 1) * 272;
    for _ in 0..2000 {
        t.step();
        for i in 0..t.len() {
            let o = t.offset_at(i);
            assert!(-272 <= o && o <= hi);
        }
    }
}

#[test]
fn visible_band_never_has_a_gap() {
    // 42 tiles of width 16 are one tile wider than a 640-pixel viewport,
    // the coverage threshold.
    let viewport_w = 640i32;
    let mut t = TileStrip::new(16, 42);
    for _ in 0..700 {
        t.step();
        let mut x = 0i32;
        while x < viewport_w {
            let mut covered = false;
            for i in 0..t.len() {
                let o = t.offset_at(i);
                if o <= x && x < o + 16 {
                    covered = true;
                    break;
                }
            }
            assert!(covered, "gap at column {}", x);
            x += 1;
        }
    }
}

#[test]
fn single_tile_strip_wraps_in_place() {
    let mut t = TileStrip::new(5, 1);
    assert_eq!(t.offset_at(0), 0);
    for _ in 0..5 {
        t.step();
    }
    assert_eq!(t.offset_at(0), -5);
    t.step();
    assert_eq!(t.offset_at(0), -1);
}
