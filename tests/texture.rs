use ronin::texture::{flip_rows, texture_from_rgba8};

fn decode_png(width: u32, height: u32, texels: Vec<u8>) -> (u32, u32, Vec<u8>) {
    let img = image::RgbaImage::from_raw(width, height, texels).unwrap();
    let mut bytes = Vec::new();
    image::DynamicImage::ImageRgba8(img)
        .write_to(&mut bytes, image::ImageOutputFormat::Png)
        .unwrap();
    let decoded = image::load_from_memory(&bytes).unwrap().into_rgba8();
    (decoded.width(), decoded.height(), decoded.into_raw())
}

#[test]
fn decoded_png_is_flipped_for_upload() {
    let top = vec![1, 2, 3, 4, 5, 6, 7, 8];
    let bottom = vec![9, 10, 11, 12, 13, 14, 15, 16];
    let (w, h, texels) = decode_png(2, 2, [top.clone(), bottom.clone()].concat());
    let t = texture_from_rgba8(w, h, &texels).unwrap();
    assert_eq!((t.width, t.height), (2, 2));
    assert_eq!(t.texels, [bottom, top].concat());
    assert_eq!(t.bytes_per_row, 8);
    assert_eq!(t.mip_level_count, 1);
}

#[test]
fn mismatched_texels_are_rejected() {
    assert!(texture_from_rgba8(2, 2, &vec![0; 15]).is_none());
    assert!(texture_from_rgba8(u32::MAX, 1, &vec![0; 4]).is_none());
    let t = texture_from_rgba8(4, 4, &vec![0; 64]).unwrap();
    assert_eq!(t.mip_level_count, 2);
}

#[test]
fn rows_reverse() {
    assert_eq!(flip_rows(&vec![1, 2, 3, 4, 5, 6], 3, 2), vec![5, 6, 3, 4, 1, 2]);
    assert_eq!(flip_rows(&vec![], 0, 4), Vec::<u8>::new());
}
