use raytracer::dimension::Dimension;
use raytracer::image::{AspectRatios, Image};
use raytracer::ppm::{encode, header, pixel_line};

#[test]
fn header_names_format_extents_and_largest_value() {
    let text = header(Dimension::from_const(256), Dimension::from_const(144));
    assert_eq!(String::from_utf8(text).unwrap(), "P3\n256 144\n255\n");
    let text = header(Dimension::from_const(0), Dimension::from_const(7));
    assert_eq!(String::from_utf8(text).unwrap(), "P3\n0 7\n255\n");
}

#[test]
fn pixel_line_is_three_decimal_channels() {
    assert_eq!(String::from_utf8(pixel_line((0, 255, 0))).unwrap(), "0 255 0\n");
    assert_eq!(String::from_utf8(pixel_line((127, 127, 127))).unwrap(), "127 127 127\n");
    assert_eq!(String::from_utf8(pixel_line((9, 10, 65535))).unwrap(), "9 10 65535\n");
}

#[test]
fn two_by_one_image_is_encoded_in_order() {
    let image = Image::new_from_width(AspectRatios::SixteenByNine, Dimension::from_const(2));
    let text = encode(&image, &vec![(255, 0, 0), (127, 179, 255)]);
    assert_eq!(String::from_utf8(text).unwrap(), "P3\n2 1\n255\n255 0 0\n127 179 255\n");
}

#[test]
fn empty_image_is_only_a_header() {
    let image = Image::new_from_width(AspectRatios::SixteenByNine, Dimension::from_const(1));
    let text = encode(&image, &vec![]);
    assert_eq!(String::from_utf8(text).unwrap(), "P3\n1 0\n255\n");
}
