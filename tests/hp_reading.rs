use mlv_screensaver::config::CurrentHpState;
use mlv_screensaver::hp::{
    find_hp_bar_start, get_hp_bar, hp_of_bar, hp_of_image, CaptureArea, HpBarFinder, Image, Pixel,
    Rect,
};

const OTHER: Pixel = Pixel { r: 1, g: 2, b: 3, a: 255 };

fn image(width: u32, rows: &[&[Pixel]]) -> Image {
    let pixels: Vec<Pixel> = rows.iter().flat_map(|r| r.iter().copied()).collect();
    Image::from_pixels(width, rows.len() as u32, pixels).expect("well-sized image")
}

#[test]
fn image_without_bar_colors_has_no_bar() {
    let img = image(3, &[&[OTHER, OTHER, OTHER], &[OTHER, OTHER, OTHER]]);
    assert_eq!(find_hp_bar_start(&img), None);
    assert_eq!(get_hp_bar(&img), None);
    assert_eq!(hp_of_image(&img), CurrentHpState::BarNotFound);
}

#[test]
fn empty_image_has_no_bar() {
    let img = Image::from_pixels(0, 0, Vec::new()).unwrap();
    assert_eq!(hp_of_image(&img), CurrentHpState::BarNotFound);
}

#[test]
fn near_miss_colors_are_not_bar_colors() {
    let almost_full = Pixel { r: 48, g: 199, b: 141, a: 254 };
    let almost_danger = Pixel { r: 210, g: 106, b: 93, a: 255 };
    let img = image(2, &[&[almost_full, almost_danger]]);
    assert_eq!(hp_of_image(&img), CurrentHpState::BarNotFound);
}

#[test]
fn reading_is_share_of_full_pixels_on_the_bar_row() {
    let g = Pixel::full();
    let r = Pixel::danger();
    // Row 1 holds the bar: 3 full, 1 danger and one other pixel.
    let img = image(6, &[&[OTHER; 6], &[OTHER, g, g, r, OTHER, g]]);
    assert_eq!(find_hp_bar_start(&img), Some((1, 1)));
    assert_eq!(get_hp_bar(&img), Some(vec![1, 1, 0, 1]));
    assert_eq!(hp_of_image(&img), CurrentHpState::Hp { full: 3, total: 4 });
}

#[test]
fn bar_start_is_found_column_by_column() {
    let g = Pixel::full();
    let r = Pixel::danger();
    // (2, 0) comes first in row order, (1, 2) comes first in column order.
    let img = image(4, &[&[OTHER, OTHER, g, g], &[OTHER; 4], &[OTHER, r, r, g]]);
    assert_eq!(find_hp_bar_start(&img), Some((1, 2)));
    assert_eq!(get_hp_bar(&img), Some(vec![0, 0, 1]));
    assert_eq!(hp_of_image(&img), CurrentHpState::Hp { full: 1, total: 3 });
}

#[test]
fn pixels_left_of_the_start_are_not_read() {
    let g = Pixel::full();
    let r = Pixel::danger();
    let img = image(4, &[&[OTHER, r, g, g], &[g, OTHER, OTHER, OTHER]]);
    // Column 0 holds a full pixel in row 1, so the bar row is row 1 from column 0.
    assert_eq!(find_hp_bar_start(&img), Some((0, 1)));
    assert_eq!(hp_of_image(&img), CurrentHpState::Hp { full: 1, total: 1 });
}

#[test]
fn all_danger_reads_zero() {
    let r = Pixel::danger();
    let img = image(3, &[&[r, r, r]]);
    let hp = hp_of_image(&img);
    assert_eq!(hp, CurrentHpState::Hp { full: 0, total: 3 });
    assert!(hp.is_below(1));
    assert!(!hp.is_high());
}

#[test]
fn hp_of_bar_counts_ones() {
    assert_eq!(hp_of_bar(&vec![]), CurrentHpState::BarNotFound);
    assert_eq!(hp_of_bar(&vec![1, 0, 1, 1]), CurrentHpState::Hp { full: 3, total: 4 });
    assert_eq!(hp_of_bar(&vec![0, 0]), CurrentHpState::Hp { full: 0, total: 2 });
}

#[test]
fn image_size_must_match_pixels() {
    assert!(Image::from_pixels(2, 2, vec![OTHER; 3]).is_none());
    assert!(Image::from_pixels(2, 2, vec![OTHER; 5]).is_none());
    let img = Image::from_pixels(2, 2, vec![OTHER; 4]).unwrap();
    assert_eq!(img.width(), 2);
    assert_eq!(img.height(), 2);
    assert_eq!(img.get_pixel(1, 1), OTHER);
}

#[test]
fn finder_reads_through_get_hp() {
    let finder = HpBarFinder::new("Old School RuneScape");
    assert_eq!(finder.window_name(), "Old School RuneScape");
    let g = Pixel::full();
    let r = Pixel::danger();
    let img = image(4, &[&[g, g, r, r]]);
    assert_eq!(finder.get_hp(&img), CurrentHpState::Hp { full: 2, total: 4 });
}

#[test]
fn capture_area_follows_the_window() {
    let mut finder = HpBarFinder::new("game");
    assert!(!finder.window_was_found());
    assert_eq!(finder.capture_area(), CaptureArea::FullScreen);
    finder.set_geometry(Some(Rect { left: 100, top: 50, right: 900, bottom: 650 }));
    assert!(finder.window_was_found());
    assert_eq!(
        finder.capture_area(),
        CaptureArea::Region { x: 105, y: 60, width: 790, height: 582 }
    );
    finder.set_geometry(Some(Rect { left: 0, top: 0, right: 10, bottom: 18 }));
    assert_eq!(
        finder.capture_area(),
        CaptureArea::Region { x: 5, y: 10, width: 0, height: 0 }
    );
    finder.set_geometry(Some(Rect { left: 0, top: 0, right: 9, bottom: 100 }));
    assert_eq!(finder.capture_area(), CaptureArea::TooSmall);
    finder.set_geometry(Some(Rect { left: 0, top: 0, right: 100, bottom: 17 }));
    assert_eq!(finder.capture_area(), CaptureArea::TooSmall);
    finder.set_geometry(Some(Rect { left: i32::MAX - 2, top: 0, right: i32::MAX, bottom: 100 }));

    assert_eq!(finder.capture_area(), CaptureArea::TooSmall);
    finder.set_geometry(None);
    assert_eq!(finder.capture_area(), CaptureArea::FullScreen);
}
