use skywallpaper::offscreen::{heartfelt_mip_count, mip_pass_count, offscreen_extent, target_shape, TargetCache};

#[test]
fn offscreen_is_quarter() {
    assert_eq!(offscreen_extent(1920, 1080), (480, 270));
    assert_eq!(offscreen_extent(160, 90), (40, 23));
    assert_eq!(offscreen_extent(1, 1), (1, 1));
    assert_eq!(heartfelt_mip_count(480, 270), 7);
    assert_eq!(heartfelt_mip_count(40, 23), 6);
    assert_eq!(heartfelt_mip_count(1, 1), 1);
}

#[test]
fn offscreen_extent_edges() {
    assert_eq!(offscreen_extent(0, 0), (1, 1));
    assert_eq!(offscreen_extent(4, 5), (1, 2));
    assert_eq!(offscreen_extent(u32::MAX, 8), (1 << 30, 2));
    assert_eq!(heartfelt_mip_count(0, 0), 1);
    assert_eq!(heartfelt_mip_count(2, 3), 2);
    assert_eq!(heartfelt_mip_count(63, 1), 6);
    assert_eq!(heartfelt_mip_count(64, 1), 7);
    assert_eq!(heartfelt_mip_count(u32::MAX, 0), 7);
}

#[test]
fn mip_passes_stop_at_focus() {
    assert_eq!(mip_pass_count(6, 3), 3);
    assert_eq!(mip_pass_count(2, 6), 2);
    assert_eq!(mip_pass_count(0, 6), 0);
    assert_eq!(mip_pass_count(6, 0), 0);
}

fn sizes(cache: &TargetCache<&'static str>) -> Vec<(u32, u32, &'static str)> {
    (0..cache.len())
        .map(|i| {
            let t = cache.get(i);
            (t.width, t.height, t.payload)
        })
        .collect()
}

#[test]
fn retain_sizes_drops_stale_targets_in_order() {
    let mut cache = TargetCache::new();
    assert_eq!(cache.insert(64, 48, "a"), 0);
    assert_eq!(cache.insert(32, 24, "b"), 1);
    assert_eq!(cache.insert(10, 10, "c"), 2);
    assert_eq!(cache.position(64, 48), Some(0));
    assert_eq!(cache.position(32, 24), Some(1));
    assert_eq!(cache.position(1, 1), None);
    cache.retain_sizes(&[(64, 48), (10, 10)]);
    assert_eq!(sizes(&cache), vec![(64, 48, "a"), (10, 10, "c")]);
    cache.retain_sizes(&[(64, 48), (10, 10)]);
    assert_eq!(sizes(&cache), vec![(64, 48, "a"), (10, 10, "c")]);
    cache.retain_sizes(&[(32, 24)]);
    assert_eq!(cache.len(), 0);
}

#[test]
fn zero_sized_surfaces_get_one_pixel_targets() {
    let mut cache = TargetCache::new();
    let i = cache.insert(0, 0, "z");
    assert_eq!(sizes(&cache), vec![(1, 1, "z")]);
    assert_eq!(i, 0);
    assert_eq!(cache.position(0, 0), None);
    assert_eq!(cache.position(1, 1), Some(0));
    cache.clear();
    assert_eq!(cache.len(), 0);
    cache.retain_sizes(&[]);
    assert_eq!(cache.len(), 0);
}

#[test]
fn retain_sizes_drops_stale_offscreen() {
    const W: u32 = 64;
    const H: u32 = 48;
    let mut cache: TargetCache<(u32, u32, u32)> = TargetCache::new();
    // Rain: the glass overlay needs an offscreen target.
    assert_eq!(cache.prepare_frame(true, W, H, target_shape), Some(0));
    assert_eq!(cache.len(), 1);
    assert_eq!(cache.get(0).payload, (16, 12, 5));
    // Snow: drawn straight to the surface, the targets go.
    assert_eq!(cache.prepare_frame(false, W, H, target_shape), None);
    assert_eq!(cache.len(), 0);
    cache.retain_sizes(&[]);
    assert_eq!(cache.len(), 0);
    assert_eq!(cache.prepare_frame(true, W, H, target_shape), Some(0));
    assert_eq!(cache.len(), 1);
    cache.retain_sizes(&[(32, 24)]);
    assert_eq!(cache.len(), 0);
    assert_eq!(cache.prepare_frame(true, W, H, target_shape), Some(0));
    assert_eq!(cache.len(), 1);
    // Dry again: the overlay fades out and the target is dropped.
    assert_eq!(cache.prepare_frame(false, W, H, target_shape), None);
    assert_eq!(cache.len(), 0);
}

#[test]
fn target_shape_is_quarter_extent_and_its_mips() {
    assert_eq!(target_shape(1920, 1080), (480, 270, 7));
    assert_eq!(target_shape(64, 48), (16, 12, 5));
    assert_eq!(target_shape(0, 0), (1, 1, 1));
    assert_eq!(target_shape(5, 3), (2, 1, 2));
}
