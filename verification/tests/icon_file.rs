use std::io::Cursor;
use tutorial_container::icon::{build_icon_dir, create_ico_file, ICO_SIZES};

fn gradient(width: u32, height: u32) -> image::DynamicImage {
    let mut buffer = image::RgbaImage::new(width, height);
    for y in 0..height {
        for x in 0..width {
            let r = (x * 255 / width.max(1)) as u8;
            let g = (y * 255 / height.max(1)) as u8;
            buffer.put_pixel(x, y, image::Rgba([r, g, 128, 255]));
        }
    }
    image::DynamicImage::ImageRgba8(buffer)
}

#[test]
fn icon_sizes_are_the_seven_standard_edges() {
    assert_eq!(ICO_SIZES, [16, 24, 32, 48, 64, 128, 256]);
}

#[test]
fn icon_file_has_one_entry_per_size() {
    let bytes = create_ico_file(&gradient(40, 30)).unwrap();
    assert_eq!(&bytes[..6], &[0, 0, 1, 0, 7, 0]);
    assert!(bytes.len() >= 6 + 16 * 7);
    let dir = ico::IconDir::read(Cursor::new(&bytes)).unwrap();
    assert_eq!(dir.resource_type(), ico::ResourceType::Icon);
    let sizes: Vec<(u32, u32)> = dir.entries().iter().map(|e| (e.width(), e.height())).collect();
    assert_eq!(
        sizes,
        vec![(16, 16), (24, 24), (32, 32), (48, 48), (64, 64), (128, 128), (256, 256)]
    );
}

#[test]
fn icon_entries_decode_to_images_of_their_size() {
    let bytes = create_ico_file(&gradient(300, 300)).unwrap();
    let dir = ico::IconDir::read(Cursor::new(&bytes)).unwrap();
    for (entry, size) in dir.entries().iter().zip(ICO_SIZES.iter()) {
        let decoded = entry.decode().unwrap();
        assert_eq!(decoded.width(), *size);
        assert_eq!(decoded.height(), *size);
        assert_eq!(decoded.rgba_data().len() as u32, 4 * size * size);
    }
}

#[test]
fn icon_of_an_image_that_already_has_an_icon_size() {
    let source = gradient(16, 16);
    let dir = build_icon_dir(&source).unwrap();
    assert_eq!(dir.entries().len(), 7);
    let first = dir.entries()[0].decode().unwrap();
    assert_eq!(first.rgba_data(), source.to_rgba8().as_raw().as_slice());
}

#[test]
fn icon_of_a_single_pixel_and_of_a_grey_image() {
    let pixel = gradient(1, 1);
    assert_eq!(build_icon_dir(&pixel).unwrap().entries().len(), 7);
    let grey = image::DynamicImage::new_luma8(20, 10);
    let bytes = create_ico_file(&grey).unwrap();
    assert_eq!(bytes[4], 7);
}
