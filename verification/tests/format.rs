use stb_image::image::ImageFormat;

#[test]
fn known_tags_map_to_their_formats() {
    assert_eq!(ImageFormat::new_from_i8(0), ImageFormat::JPEG);
    assert_eq!(ImageFormat::new_from_i8(1), ImageFormat::PNG);
    assert_eq!(ImageFormat::new_from_i8(2), ImageFormat::BMP);
    assert_eq!(ImageFormat::new_from_i8(3), ImageFormat::GIF);
    assert_eq!(ImageFormat::new_from_i8(4), ImageFormat::PSD);
    assert_eq!(ImageFormat::new_from_i8(5), ImageFormat::PIC);
}

#[test]
fn other_tags_map_to_unknown() {
    assert_eq!(ImageFormat::new_from_i8(99), ImageFormat::Unknown);
    assert_eq!(ImageFormat::new_from_i8(-1), ImageFormat::Unknown);
    assert_eq!(ImageFormat::new_from_i8(6), ImageFormat::Unknown);
    assert_eq!(ImageFormat::new_from_i8(i8::MIN), ImageFormat::Unknown);
    assert_eq!(ImageFormat::new_from_i8(i8::MAX), ImageFormat::Unknown);
}

#[test]
fn every_tag_maps_to_a_format() {
    for tag in i8::MIN..=i8::MAX {
        let format = ImageFormat::new_from_i8(tag);
        assert_eq!(format == ImageFormat::Unknown, !(0..=5).contains(&tag));
    }
}
