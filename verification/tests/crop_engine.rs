use ecut::ImgData;
use ecut::SrcRect;
use ecut::copy_pixels;
use ecut::crop_image_data;
use ecut::index_img;

/// An image whose byte at flat index `i` is `i` modulo 256: every pixel is
/// distinguishable, so a misplaced copy shows up.
fn numbered_image(width: u16, height: u16) -> ImgData {
    let n = 4 * width as usize * height as usize;
    let bytes: Vec<u8> = (0..n).map(|i| (i % 256) as u8).collect();
    ImgData { width, height, bytes }
}

fn solid_image(width: u16, height: u16, rgba: [u8; 4]) -> ImgData {
    let n = width as usize * height as usize;
    let mut bytes = Vec::new();
    for _ in 0..n {
        bytes.extend_from_slice(&rgba);
    }
    ImgData { width, height, bytes }
}

#[test]
fn crop_copies_exact_pixels() {
    let img = numbered_image(4, 4);
    let rect = SrcRect { x: 1, y: 1, w: 2, h: 2 };
    let out = crop_image_data(&img, &rect);
    assert_eq!(out.width, 2);
    assert_eq!(out.height, 2);
    assert_eq!(out.bytes.len(), 2 * 2 * 4);
    for dy in 0..2usize {
        for dx in 0..2usize {
            for j in 0..4usize {
                let got = out.bytes[(dy * 2 + dx) * 4 + j];
                let want = img.bytes[((1 + dy) * 4 + (1 + dx)) * 4 + j];
                assert_eq!(got, want);
            }
        }
    }
}

#[test]
fn crop_full_image_is_identity() {
    let img = numbered_image(3, 2);
    let rect = SrcRect { x: 0, y: 0, w: 3, h: 2 };
    let out = crop_image_data(&img, &rect);
    assert_eq!(out.width, 3);
    assert_eq!(out.height, 2);
    assert_eq!(out.bytes, img.bytes);
}

#[test]
fn crop_zero_width_is_empty() {
    let img = numbered_image(3, 3);
    let rect = SrcRect { x: 2, y: 0, w: 0, h: 3 };
    let out = crop_image_data(&img, &rect);
    assert_eq!(out.width, 0);
    assert_eq!(out.height, 3);
    assert!(out.bytes.is_empty());
}

#[test]
fn crop_zero_height_is_empty() {
    let img = numbered_image(3, 3);
    let rect = SrcRect { x: 0, y: 3, w: 3, h: 0 };
    let out = crop_image_data(&img, &rect);
    assert_eq!(out.width, 3);
    assert_eq!(out.height, 0);
    assert!(out.bytes.is_empty());
}

#[test]
fn degenerate_crop_never_fails() {
    // a zero-area rectangle reads nothing, so it is accepted even where
    // its corner sits outside the image
    let img = numbered_image(3, 3);
    let rect = SrcRect { x: 9, y: 7, w: 0, h: 5 };
    let out = crop_image_data(&img, &rect);
    assert!(out.bytes.is_empty());
    let rect = SrcRect { x: 1, y: 9, w: 2, h: 0 };
    let out = crop_image_data(&img, &rect);
    assert!(out.bytes.is_empty());
}

#[test]
fn crop_single_pixel() {
    let img = numbered_image(2, 2);
    let rect = SrcRect { x: 1, y: 1, w: 1, h: 1 };
    let out = crop_image_data(&img, &rect);
    // pixel (1, 1) starts at flat byte (1 * 2 + 1) * 4 = 12
    assert_eq!(out.bytes, vec![12, 13, 14, 15]);
}

#[test]
fn crop_solid_color_stays_solid() {
    let img = solid_image(4, 4, [255, 0, 0, 255]);
    let rect = SrcRect { x: 1, y: 1, w: 2, h: 2 };
    let out = crop_image_data(&img, &rect);
    assert_eq!(out.bytes, solid_image(2, 2, [255, 0, 0, 255]).bytes);
}

#[test]
fn index_img_reads_pixel() {
    let img = numbered_image(3, 2);
    // pixel (2, 1) starts at flat byte (1 * 3 + 2) * 4 = 20
    let rgba = index_img(&img.bytes, 2, 1, 3);
    assert_eq!(rgba, [20, 21, 22, 23]);
}

#[test]
fn copy_pixels_fills_destination() {
    let img = numbered_image(3, 3);
    let rect = SrcRect { x: 0, y: 1, w: 3, h: 1 };
    let mut dst = vec![0u8; 3 * 4];
    copy_pixels(&img.bytes, &mut dst, &rect, 3);
    // row 1 of the source: bytes 12..24
    let want: Vec<u8> = (12..24).map(|i| i as u8).collect();
    assert_eq!(dst, want);
}
