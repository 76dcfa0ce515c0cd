use gradient_ppm::decimal::push_decimal;
use gradient_ppm::image::{
    channel, header, pixel_color, push_pixel, push_row, render, row, Rgb, IMAGE_HEIGHT,
    IMAGE_WIDTH,
};

fn text(bytes: Vec<u8>) -> String {
    String::from_utf8(bytes).unwrap()
}

#[test]
fn full_image_has_header_and_one_line_per_pixel() {
    let out = text(render(IMAGE_WIDTH, IMAGE_HEIGHT));
    let lines: Vec<&str> = out.lines().collect();
    assert_eq!(lines.len(), 4 + 256 * 256);
    assert_eq!(lines[0], "P3");
    assert_eq!(lines[1], "256 256");
    assert_eq!(lines[2], "255");
    assert_eq!(lines[3], "");
    assert_eq!(lines[4], "0 255 63");
    assert_eq!(lines[4 + 256 * 256 - 1], "255 0 63");
    assert_eq!(out.matches('\n').count(), 4 + 256 * 256);
    assert!(out.ends_with('\n'));
}

#[test]
fn full_image_rows_go_top_down_and_columns_left_right() {
    let out = text(render(256, 256));
    let lines: Vec<&str> = out.lines().collect();
    // second emitted row is row 254, its column 1
    assert_eq!(lines[4 + 256 + 1], "1 254 63");
    // first row, last column
    assert_eq!(lines[4 + 255], "255 255 63");
    for line in &lines[4..] {
        for part in line.split(' ') {
            let v: u64 = part.parse().unwrap();
            assert!(v <= 255);
        }
    }
}

#[test]
fn small_image_exact_text() {
    let out = text(render(2, 2));
    assert_eq!(out, "P3\n2 2\n255\n\n0 255 63\n255 255 63\n0 0 63\n255 0 63\n");
}

#[test]
fn header_text() {
    assert_eq!(text(header(256, 256)), "P3\n256 256\n255\n\n");
    assert_eq!(text(header(3, 1000)), "P3\n3 1000\n255\n\n");
}

#[test]
fn channel_values() {
    assert_eq!(channel(0, 255), 0);
    assert_eq!(channel(255, 255), 255);
    assert_eq!(channel(1, 4), 63);
    assert_eq!(channel(128, 255), 128);
    assert_eq!(channel(1, 2), 127);
    assert_eq!(channel(u32::MAX, u32::MAX), 255);
}

#[test]
fn channel_is_not_clamped() {
    assert_eq!(channel(2, 1), 511);
    assert_eq!(channel(u32::MAX, 1), 1_099_507_332_552);
}

#[test]
fn corner_pixels() {
    assert_eq!(pixel_color(255, 0, 256, 256), Rgb { r: 0, g: 255, b: 63 });
    assert_eq!(pixel_color(0, 255, 256, 256), Rgb { r: 255, g: 0, b: 63 });
    assert_eq!(pixel_color(128, 64, 256, 256), Rgb { r: 64, g: 128, b: 63 });
}

#[test]
fn decimal_forms() {
    let mut out: Vec<u8> = Vec::new();
    push_decimal(&mut out, 0);
    assert_eq!(text(out), "0");
    let mut out: Vec<u8> = b"x=".to_vec();
    push_decimal(&mut out, 1234567890);
    assert_eq!(text(out), "x=1234567890");
    let mut out: Vec<u8> = Vec::new();
    push_decimal(&mut out, u64::MAX);
    assert_eq!(text(out), "18446744073709551615");
}

#[test]
fn pixel_line() {
    let mut out: Vec<u8> = b"> ".to_vec();
    push_pixel(&mut out, Rgb { r: 1, g: 22, b: 333 });
    assert_eq!(text(out), "> 1 22 333\n");
}

#[test]
fn one_row() {
    assert_eq!(text(row(0, 3, 2)), "0 0 63\n127 0 63\n255 0 63\n");
    let mut out: Vec<u8> = b"head\n".to_vec();
    push_row(&mut out, 1, 3, 2);
    assert_eq!(text(out), "head\n0 255 63\n127 255 63\n255 255 63\n");
}
