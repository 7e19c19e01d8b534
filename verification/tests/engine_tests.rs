use wallspan::engine::{crop_wallpaper_image, fit_to_target, FitError};
use wallspan::geometry::MonitorInfo;
use wallspan::raster::{Raster, MAX_RESIZE_SIDE};

fn monitor(width: u32, height: u32, x: i32, y: i32) -> MonitorInfo {
    MonitorInfo { width, height, x, y }
}

/// A picture in which the pixel at (x, y) is (x, y, x + y), each modulo 251.
fn gradient(width: u32, height: u32) -> Raster {
    let mut data = Vec::new();
    for y in 0..height {
        for x in 0..width {
            data.push((x % 251) as u8);
            data.push((y % 251) as u8);
            data.push(((x + y) % 251) as u8);
        }
    }
    Raster::new(width, height, data).unwrap()
}

fn plain(width: u32, height: u32, rgb: (u8, u8, u8)) -> Raster {
    let mut data = Vec::new();
    for _ in 0..(width as usize * height as usize) {
        data.push(rgb.0);
        data.push(rgb.1);
        data.push(rgb.2);
    }
    Raster::new(width, height, data).unwrap()
}

fn assert_size(picture: &Raster, width: u32, height: u32) {
    assert_eq!((picture.width(), picture.height()), (width, height));
    assert_eq!(picture.as_bytes().len(), 3 * width as usize * height as usize);
}

#[test]
fn raster_needs_three_bytes_per_pixel() {
    assert!(Raster::new(2, 2, vec![0; 12]).is_some());
    assert!(Raster::new(2, 2, vec![0; 11]).is_none());
    assert!(Raster::new(2, 2, vec![0; 13]).is_none());
    assert!(Raster::new(0, 5, vec![]).is_some());
    assert!(Raster::new(0, 5, vec![0]).is_none());
}

#[test]
fn raster_pixels_are_row_major() {
    let picture = Raster::new(2, 2, vec![1, 2, 3, 4, 5, 6, 7, 8, 9, 10, 11, 12]).unwrap();
    assert_eq!(picture.pixel(0, 0), Some((1, 2, 3)));
    assert_eq!(picture.pixel(1, 0), Some((4, 5, 6)));
    assert_eq!(picture.pixel(0, 1), Some((7, 8, 9)));
    assert_eq!(picture.pixel(1, 1), Some((10, 11, 12)));
    assert_eq!(picture.pixel(2, 0), None);
    assert_eq!(picture.pixel(0, 2), None);
    assert_eq!(picture.into_raw(), vec![1, 2, 3, 4, 5, 6, 7, 8, 9, 10, 11, 12]);
}

#[test]
fn crop_center_copies_the_middle() {
    let picture = gradient(7, 6);
    let cut = picture.crop_center(2, 3).unwrap();
    assert_size(&cut, 2, 3);
    // Offsets: (7 - 2) / 2 = 2 and (6 - 3) / 2 = 1.
    for y in 0..3u32 {
        for x in 0..2u32 {
            assert_eq!(cut.pixel(x, y), picture.pixel(x + 2, y + 1));
            assert_eq!(cut.pixel(x, y), Some(((x + 2) as u8, (y + 1) as u8, (x + y + 3) as u8)));
        }
    }
}

#[test]
fn crop_center_of_the_whole_is_the_whole() {
    let picture = gradient(5, 4);
    let cut = picture.crop_center(5, 4).unwrap();
    assert_size(&cut, 5, 4);
    assert_eq!(cut.as_bytes(), picture.as_bytes());
}

#[test]
fn crop_center_refuses_a_larger_cut() {
    let picture = gradient(5, 4);
    assert!(picture.crop_center(6, 4).is_none());
    assert!(picture.crop_center(5, 5).is_none());
    assert!(picture.crop_center(0, 0).is_some());
}

#[test]
fn resized_has_the_size_asked_for() {
    let picture = gradient(4, 3);
    assert_size(&picture.resized(9, 7).unwrap(), 9, 7);
    assert_size(&picture.resized(2, 1).unwrap(), 2, 1);
    assert_size(&picture.resized(4, 3).unwrap(), 4, 3);
}

#[test]
fn resized_refuses_empty_and_huge_sizes() {
    let picture = gradient(4, 3);
    assert!(picture.resized(0, 7).is_none());
    assert!(picture.resized(9, 0).is_none());
    assert!(picture.resized(u32::MAX, u32::MAX).is_none());
    let empty = Raster::new(0, 0, vec![]).unwrap();
    assert!(empty.resized(3, 3).is_none());
}

#[test]
fn source_smaller_than_target_in_both_axes() {
    let out = fit_to_target(&gradient(10, 10), 64, 36).unwrap();
    assert_size(&out, 64, 36);
}

#[test]
fn source_larger_than_target_in_both_axes() {
    let out = fit_to_target(&gradient(120, 90), 32, 18).unwrap();
    assert_size(&out, 32, 18);
}

#[test]
fn source_matching_one_axis() {
    let out = fit_to_target(&gradient(40, 25), 40, 10).unwrap();
    assert_size(&out, 40, 10);
    let out = fit_to_target(&gradient(40, 25), 90, 25).unwrap();
    assert_size(&out, 90, 25);
}

#[test]
fn source_of_the_target_size_is_kept() {
    let picture = gradient(16, 9);
    let out = fit_to_target(&picture, 16, 9).unwrap();
    assert_size(&out, 16, 9);
    assert_eq!(out.as_bytes(), picture.as_bytes());
}

#[test]
fn extreme_aspect_ratio_against_its_transpose() {
    let out = fit_to_target(&gradient(1, 40), 40, 1).unwrap();
    assert_size(&out, 40, 1);
    let out = fit_to_target(&gradient(40, 1), 1, 40).unwrap();
    assert_size(&out, 1, 40);
}

#[test]
fn single_pixel_source_gives_one_colour() {
    let out = fit_to_target(&plain(1, 1, (200, 100, 50)), 23, 17).unwrap();
    assert_size(&out, 23, 17);
    for y in 0..17u32 {
        for x in 0..23u32 {
            assert_eq!(out.pixel(x, y), Some((200, 100, 50)));
        }
    }
}

#[test]
fn wallpaper_spans_two_monitors() {
    let monitors = vec![monitor(192, 108, 0, 0), monitor(192, 108, 192, 0)];
    let out = crop_wallpaper_image(&monitors, &gradient(192, 108)).unwrap();
    assert_size(&out, 384, 108);
}

#[test]
fn wallpaper_covers_monitors_at_negative_positions() {
    let monitors = vec![monitor(64, 48, -64, 10), monitor(80, 60, 0, 0)];
    let out = crop_wallpaper_image(&monitors, &gradient(30, 30)).unwrap();
    assert_size(&out, 144, 60);
}

#[test]
fn wallpaper_without_monitors_uses_the_fallback_size() {
    let out = crop_wallpaper_image(&[], &plain(8, 6, (1, 2, 3))).unwrap();
    assert_size(&out, 800, 600);
}

#[test]
fn empty_source_is_refused() {
    let empty = Raster::new(0, 0, vec![]).unwrap();
    assert_eq!(fit_to_target(&empty, 10, 10).err(), Some(FitError::EmptySource));
    let monitors = vec![monitor(10, 10, 0, 0)];
    assert_eq!(crop_wallpaper_image(&monitors, &empty).err(), Some(FitError::EmptySource));
    let flat = Raster::new(5, 0, vec![]).unwrap();
    assert_eq!(fit_to_target(&flat, 10, 10).err(), Some(FitError::EmptySource));
}

#[test]
fn empty_target_is_refused() {
    let picture = gradient(4, 4);
    assert_eq!(fit_to_target(&picture, 0, 10).err(), Some(FitError::EmptyTarget));
    assert_eq!(fit_to_target(&picture, 10, 0).err(), Some(FitError::EmptyTarget));
    let monitors = vec![monitor(0, 10, 5, 5)];
    assert_eq!(crop_wallpaper_image(&monitors, &picture).err(), Some(FitError::EmptyTarget));
}

#[test]
fn oversized_result_is_refused() {
    let picture = gradient(1, 2);
    assert_eq!(fit_to_target(&picture, u32::MAX, 1).err(), Some(FitError::TooLarge));
    assert_eq!(fit_to_target(&picture, u32::MAX, u32::MAX).err(), Some(FitError::TooLarge));
    let monitors = vec![
        monitor(u32::MAX, 10, i32::MIN, 0),
        monitor(u32::MAX, 10, i32::MAX, 0),
    ];
    assert_eq!(crop_wallpaper_image(&monitors, &picture).err(), Some(FitError::TooLarge));
}

#[test]
fn wallpaper_of_the_desktop_size_is_kept() {
    let monitors = vec![monitor(12, 9, -12, 0), monitor(12, 9, 0, 0)];
    let picture = gradient(24, 9);
    let out = crop_wallpaper_image(&monitors, &picture).unwrap();
    assert_size(&out, 24, 9);
    assert_eq!(out.as_bytes(), picture.as_bytes());
}

#[test]
fn resized_refuses_a_side_over_the_limit() {
    assert_eq!(MAX_RESIZE_SIDE, 2_097_152);
    let picture = gradient(4, 3);
    assert!(picture.resized(MAX_RESIZE_SIDE + 1, 1).is_none());
    assert!(picture.resized(1, MAX_RESIZE_SIDE + 1).is_none());
    assert!(picture.resized(134_217_728, 1).is_none());
    let wide = plain(MAX_RESIZE_SIDE + 1, 1, (9, 8, 7));
    assert!(wide.resized(10, 1).is_none());
    assert!(wide.resized(MAX_RESIZE_SIDE + 1, 1).is_none());
    let high = plain(1, MAX_RESIZE_SIDE + 1, (9, 8, 7));
    assert!(high.resized(1, 10).is_none());
}

#[test]
fn resized_accepts_a_side_at_the_limit() {
    let picture = plain(2, 1, (10, 20, 30));
    let out = picture.resized(MAX_RESIZE_SIDE, 1).unwrap();
    assert_size(&out, MAX_RESIZE_SIDE, 1);
    assert_eq!(out.pixel(0, 0), Some((10, 20, 30)));
    assert_eq!(out.pixel(MAX_RESIZE_SIDE - 1, 0), Some((10, 20, 30)));
    let wide = plain(MAX_RESIZE_SIDE, 1, (10, 20, 30));
    let out = wide.resized(3, 1).unwrap();
    assert_size(&out, 3, 1);
}

#[test]
fn side_over_the_limit_is_too_large_for_the_fit() {
    let picture = gradient(1, 2);
    assert_eq!(
        fit_to_target(&picture, MAX_RESIZE_SIDE + 1, 1).err(),
        Some(FitError::TooLarge)
    );
    let small = gradient(4, 1);
    let monitors = vec![monitor(134_217_728, 1, 0, 0)];
    assert_eq!(crop_wallpaper_image(&monitors, &small).err(), Some(FitError::TooLarge));
    let wide = plain(MAX_RESIZE_SIDE + 1, 1, (1, 2, 3));
    assert_eq!(fit_to_target(&wide, 8, 1).err(), Some(FitError::TooLarge));
    // The scaled picture would be one column over the limit.
    let tall = gradient(2, 3);
    assert_eq!(
        fit_to_target(&tall, 2, MAX_RESIZE_SIDE + 1).err(),
        Some(FitError::TooLarge)
    );
}

#[test]
fn side_at_the_limit_is_fitted() {
    let monitors = vec![monitor(MAX_RESIZE_SIDE, 1, 0, 0)];
    // The scale is 2, so the scaled picture is as wide as the limit and 2 high.
    let source = plain(MAX_RESIZE_SIDE / 2, 1, (5, 6, 7));
    let out = crop_wallpaper_image(&monitors, &source).unwrap();
    assert_size(&out, MAX_RESIZE_SIDE, 1);
}
