use coffee_sim_wasm::diagnostics::{
    occupied_band_span, surface_bin, surface_bin_coords, water_readback_range, SURFACE_BINS,
};

#[test]
fn water_slots_follow_the_bed_slots() {
    assert_eq!(water_readback_range(80, 120, 4, 6), Some((4, 10)));
    assert_eq!(water_readback_range(200, 300, 0, 0), Some((0, 0)));
    assert_eq!(water_readback_range(0, 0, 0, 0), Some((0, 0)));
}

#[test]
fn short_readbacks_hold_no_water_range() {
    assert_eq!(water_readback_range(79, 120, 4, 6), None);
    assert_eq!(water_readback_range(80, 119, 4, 6), None);
    assert_eq!(water_readback_range(0, 0, 1, 0), None);
}

#[test]
fn surface_bins_round_trip() {
    assert_eq!(surface_bin(0, 0), 0);
    assert_eq!(surface_bin(3, 0), 3);
    assert_eq!(surface_bin(0, 1), 16);
    assert_eq!(surface_bin(15, 15), 255);
    for bin in 0..SURFACE_BINS * SURFACE_BINS {
        let (bx, bz) = surface_bin_coords(bin);
        assert_eq!(surface_bin(bx, bz), bin);
    }
    assert_eq!(surface_bin_coords(37), (5, 2));
}

#[test]
fn occupied_span_finds_lowest_and_highest_bands() {
    assert_eq!(occupied_band_span(&[0, 3, 0, 2, 0, 0]), Some((1, 3)));
    assert_eq!(occupied_band_span(&[0, 0, 5, 0, 0, 0]), Some((2, 2)));
    assert_eq!(occupied_band_span(&[1, 0, 0, 0, 0, 1]), Some((0, 5)));
    assert_eq!(occupied_band_span(&[0, 0, 0, 0, 0, 0]), None);
    assert_eq!(occupied_band_span(&[]), None);
}
