use ldap_avatar::sizing::{effective_side, square_region, Region, DEFAULT_SIDE, MAX_SIDE, MIN_SIDE};

#[test]
fn policy_constants() {
    assert_eq!(MIN_SIDE, 32);
    assert_eq!(MAX_SIDE, 512);
    assert_eq!(DEFAULT_SIDE, 64);
}

#[test]
fn sides_in_range_are_kept() {
    assert_eq!(effective_side(32), 32);
    assert_eq!(effective_side(33), 33);
    assert_eq!(effective_side(64), 64);
    assert_eq!(effective_side(100), 100);
    assert_eq!(effective_side(511), 511);
    assert_eq!(effective_side(512), 512);
}

#[test]
fn sides_out_of_range_become_the_default() {
    assert_eq!(effective_side(0), 64);
    assert_eq!(effective_side(1), 64);
    assert_eq!(effective_side(31), 64);
    assert_eq!(effective_side(513), 64);
    assert_eq!(effective_side(999), 64);
    assert_eq!(effective_side(u32::MAX), 64);
}

#[test]
fn every_side_ends_in_range() {
    let mut requested: u32 = 0;
    while requested < 2000 {
        let side = effective_side(requested);
        assert!(side >= MIN_SIDE && side <= MAX_SIDE);
        if requested >= MIN_SIDE && requested <= MAX_SIDE {
            assert_eq!(side, requested);
        } else {
            assert_eq!(side, DEFAULT_SIDE);
        }
        requested += 1;
    }
}

#[test]
fn square_region_of_a_wide_source() {
    assert_eq!(square_region(200, 100), Region { x: 0, y: 0, width: 100, height: 100 });
}

#[test]
fn square_region_of_a_high_source() {
    assert_eq!(square_region(100, 200), Region { x: 0, y: 0, width: 100, height: 100 });
}

#[test]
fn square_region_of_a_square_source() {
    assert_eq!(square_region(77, 77), Region { x: 0, y: 0, width: 77, height: 77 });
}

#[test]
fn square_region_of_an_empty_source() {
    assert_eq!(square_region(0, 5), Region { x: 0, y: 0, width: 0, height: 0 });
    assert_eq!(square_region(5, 0), Region { x: 0, y: 0, width: 0, height: 0 });
}

#[test]
fn square_region_of_the_largest_source() {
    assert_eq!(
        square_region(u32::MAX, 3),
        Region { x: 0, y: 0, width: 3, height: 3 }
    );
    assert_eq!(
        square_region(u32::MAX, u32::MAX),
        Region { x: 0, y: 0, width: u32::MAX, height: u32::MAX }
    );
}
