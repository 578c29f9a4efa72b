use photo_stacker::batch::{output_path, plan_batch, PairJob};
use photo_stacker::error::AppError;
use photo_stacker::overlay::{overlay_stamps, PRIMARY_TEXT_X, SECONDARY_TEXT_X, TEXT_Y};
use photo_stacker::palette::{colors_from_palette, get_color_palette, Color};
use photo_stacker::raster::{join_photos_vertically, RgbaImage};

fn solid(width: u32, height: u32, px: [u8; 4]) -> RgbaImage {
    let mut data = Vec::new();
    for _ in 0..width * height {
        data.extend_from_slice(&px);
    }
    RgbaImage::from_raw(width, height, data).unwrap()
}

fn numbered(width: u32, height: u32, start: u8) -> RgbaImage {
    let data: Vec<u8> = (0..4 * width * height).map(|i| start.wrapping_add(i as u8)).collect();
    RgbaImage::from_raw(width, height, data).unwrap()
}

fn stems(names: &[&str]) -> Vec<String> {
    names.iter().map(|s| s.to_string()).collect()
}

#[test]
fn from_raw_checks_buffer_length() {
    assert!(RgbaImage::from_raw(2, 2, vec![0u8; 16]).is_some());
    assert!(RgbaImage::from_raw(2, 2, vec![0u8; 15]).is_none());
    assert!(RgbaImage::from_raw(2, 2, vec![0u8; 17]).is_none());
    assert!(RgbaImage::from_raw(0, 5, Vec::new()).is_some());
}

#[test]
fn join_stacks_first_above_second() {
    let top = numbered(3, 2, 0);
    let bottom = numbered(3, 1, 100);
    let joined = join_photos_vertically(top.clone(), bottom.clone()).unwrap();
    assert_eq!(joined.width, 3);
    assert_eq!(joined.height, 3);
    assert_eq!(joined.data.len(), 4 * 3 * 3);
    assert_eq!(&joined.data[..24], &top.data[..]);
    assert_eq!(&joined.data[24..], &bottom.data[..]);
    // pixel (1, 2) is pixel (1, 0) of the bottom picture
    let o = 4 * (2 * 3 + 1);
    assert_eq!(&joined.data[o..o + 4], &bottom.data[4..8]);
}

#[test]
fn join_with_empty_bottom_keeps_top() {
    let top = numbered(2, 2, 7);
    let bottom = RgbaImage::from_raw(2, 0, Vec::new()).unwrap();
    let joined = join_photos_vertically(top.clone(), bottom).unwrap();
    assert_eq!(joined.height, 2);
    assert_eq!(joined.data, top.data);
}

#[test]
fn join_rejects_different_widths() {
    let a = numbered(2, 2, 0);
    let b = numbered(3, 2, 0);
    assert_eq!(join_photos_vertically(a, b).unwrap_err(), AppError::MismatchSize);
    let c = numbered(1, 4, 0);
    let d = numbered(4, 1, 0);
    assert_eq!(join_photos_vertically(c, d).unwrap_err(), AppError::MismatchSize);
}

#[test]
fn palette_colors_come_from_indices_zero_and_two_hundred() {
    let mut palette: Vec<[u8; 4]> = (0..256).map(|i| [i as u8, 1, 2, 3]).collect();
    palette[0] = [10, 20, 30, 0];
    palette[200] = [40, 50, 60, 128];
    let c = colors_from_palette(&palette).unwrap();
    assert_eq!(c.primary, [10, 20, 30, 255]);
    assert_eq!(c.secondary, [40, 50, 60, 255]);
}

#[test]
fn palette_too_short_is_out_of_range() {
    let short: Vec<[u8; 4]> = vec![[1, 2, 3, 4]; 200];
    assert_eq!(colors_from_palette(&short).unwrap_err(), AppError::PaletteIndexOutOfRange);
    assert_eq!(colors_from_palette(&Vec::new()).unwrap_err(), AppError::PaletteIndexOutOfRange);
    let just_enough: Vec<[u8; 4]> = vec![[1, 2, 3, 4]; 201];
    let c = colors_from_palette(&just_enough).unwrap();
    assert_eq!(c.primary, [1, 2, 3, 255]);
    assert_eq!(c.secondary, [1, 2, 3, 255]);
}

#[test]
fn uniform_palette_gives_one_color_twice() {
    let palette: Vec<[u8; 4]> = vec![[9, 8, 7, 6]; 256];
    let c = colors_from_palette(&palette).unwrap();
    assert_eq!(c.primary, c.secondary);
    assert_eq!(c.primary, [9, 8, 7, 255]);
}

// A picture of one color fills a single palette slot; the quantizer leaves the
// other slots transparent black, so the secondary color is black, not the
// picture's color. The palette still has all of its slots, so no index error.
#[test]
fn solid_color_picture_palette() {
    let img = solid(2, 2, [255, 0, 0, 255]);
    let c = get_color_palette(&img);
    assert_eq!(c.primary, [255, 0, 0, 255]);
    assert_eq!(c.secondary, [0, 0, 0, 255]);
}

#[test]
fn palette_colors_are_opaque() {
    let img = numbered(4, 4, 3);
    let c = get_color_palette(&img);
    assert_eq!(c.primary[3], 255);
    assert_eq!(c.secondary[3], 255);
    let empty = RgbaImage::from_raw(0, 0, Vec::new()).unwrap();
    let e = get_color_palette(&empty);
    assert_eq!(e.primary[3], 255);
}

#[test]
fn output_path_follows_naming_convention() {
    assert_eq!(output_path("export", "jan", "cat"), "export/jan-cat.png");
    assert_eq!(output_path("", "a", "b"), "/a-b.png");
}

#[test]
fn plan_covers_every_pair_once() {
    let months = stems(&["jan", "feb", "mar"]);
    let images = stems(&["cat", "dog"]);
    let jobs = plan_batch("out", &months, &images);
    assert_eq!(jobs.len(), 6);
    let outputs: Vec<&str> = jobs.iter().map(|j| j.output.as_str()).collect();
    assert_eq!(
        outputs,
        vec![
            "out/jan-cat.png",
            "out/feb-cat.png",
            "out/mar-cat.png",
            "out/jan-dog.png",
            "out/feb-dog.png",
            "out/mar-dog.png",
        ]
    );
    for (a, ja) in jobs.iter().enumerate() {
        for jb in jobs.iter().skip(a + 1) {
            assert_ne!(ja.output, jb.output);
        }
    }
    assert_eq!(jobs[4].month, 1);
    assert_eq!(jobs[4].image, 1);
}

#[test]
fn plan_of_empty_directory_is_empty() {
    let none: Vec<String> = Vec::new();
    assert!(plan_batch("out", &none, &stems(&["cat"])).is_empty());
    assert!(plan_batch("out", &stems(&["jan"]), &none).is_empty());
}

#[test]
fn plan_collides_when_a_month_name_holds_the_separator() {
    let jobs = plan_batch("o", &stems(&["a-b", "a"]), &stems(&["c", "b-c"]));
    assert_eq!(jobs[0].output, "o/a-b-c.png");
    assert_eq!(jobs[3].output, "o/a-b-c.png");
}

#[test]
fn replanning_gives_the_same_paths() {
    let months = stems(&["jan", "feb"]);
    let images = stems(&["cat"]);
    let first: Vec<PairJob> = plan_batch("out", &months, &images);
    let second: Vec<PairJob> = plan_batch("out", &months, &images);
    assert_eq!(first.len(), second.len());
    for (a, b) in first.iter().zip(second.iter()) {
        assert_eq!(a.output, b.output);
        assert_eq!(a.month, b.month);
        assert_eq!(a.image, b.image);
    }
}

#[test]
fn overlay_draws_twenty_and_nineteen() {
    let color = Color { primary: [1, 2, 3, 255], secondary: [4, 5, 6, 255] };
    let stamps = overlay_stamps(&color);
    assert_eq!(stamps.len(), 2);
    assert_eq!(stamps[0].text, "20");
    assert_eq!((stamps[0].x, stamps[0].y), (380, 3035));
    assert_eq!(stamps[0].color, [1, 2, 3, 255]);
    assert_eq!(stamps[1].text, "19");
    assert_eq!((stamps[1].x, stamps[1].y), (660, 3035));
    assert_eq!(stamps[1].color, [4, 5, 6, 255]);
    assert_eq!((PRIMARY_TEXT_X, SECONDARY_TEXT_X, TEXT_Y), (380, 660, 3035));
}

#[test]
fn jan_over_cat_scenario() {
    let jan = numbered(2, 2, 0);
    let cat = solid(2, 2, [255, 0, 0, 255]);
    let months = stems(&["jan"]);
    let images = stems(&["cat"]);
    let jobs = plan_batch("export_dir", &months, &images);
    assert_eq!(jobs.len(), 1);
    assert_eq!(jobs[0].output, "export_dir/jan-cat.png");
    let color = get_color_palette(&cat);
    let joined = join_photos_vertically(jan.clone(), cat.clone()).unwrap();
    assert_eq!((joined.width, joined.height), (2, 4));
    assert_eq!(&joined.data[..16], &jan.data[..]);
    assert_eq!(&joined.data[16..], &cat.data[..]);
    let stamps = overlay_stamps(&color);
    assert_eq!(stamps[0].color, color.primary);
    assert_eq!(stamps[1].color, color.secondary);
    assert_eq!(stamps[0].color, [255, 0, 0, 255]);
}

#[test]
fn outside_errors_map_to_library_errors() {
    let io = std::io::Error::new(std::io::ErrorKind::Other, "disk full");
    assert_eq!(AppError::from(io), AppError::CouldntSaveFile);
    let io2 = std::io::Error::new(std::io::ErrorKind::NotFound, "gone");
    assert_eq!(AppError::from(image::ImageError::IoError(io2)), AppError::NotFound);
}
