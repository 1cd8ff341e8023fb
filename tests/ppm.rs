use raytracer::framebuffer::Framebuffer;
use raytracer::ppm::{decimal_bytes, encode_ppm, ppm_header, Rgb};

#[test]
fn decimal_digits() {
    assert_eq!(decimal_bytes(0), b"0".to_vec());
    assert_eq!(decimal_bytes(7), b"7".to_vec());
    assert_eq!(decimal_bytes(10), b"10".to_vec());
    assert_eq!(decimal_bytes(1024), b"1024".to_vec());
    assert_eq!(decimal_bytes(usize::MAX), usize::MAX.to_string().into_bytes());
}

#[test]
fn header_of_reference_size() {
    assert_eq!(ppm_header(1024, 768), b"P6\n1024 768\n255\n".to_vec());
    assert_eq!(ppm_header(1, 0), b"P6\n1 0\n255\n".to_vec());
}

#[test]
fn incomplete_image_has_no_encoding() {
    let mut fb = Framebuffer::new(2, 1);
    assert_eq!(encode_ppm(&fb), None);
    fb.push(Rgb { r: 1, g: 2, b: 3 });
    assert_eq!(encode_ppm(&fb), None);
}

#[test]
fn complete_image_is_header_then_rgb_triples() {
    let mut fb = Framebuffer::new(2, 2);
    fb.push(Rgb { r: 255, g: 0, b: 0 });
    fb.push(Rgb { r: 0, g: 255, b: 0 });
    fb.push(Rgb { r: 0, g: 0, b: 255 });
    fb.push(Rgb { r: 51, g: 178, b: 204 });
    let mut expected = b"P6\n2 2\n255\n".to_vec();
    expected.extend_from_slice(&[255, 0, 0, 0, 255, 0, 0, 0, 255, 51, 178, 204]);
    assert_eq!(encode_ppm(&fb), Some(expected));
}

#[test]
fn uniform_image_repeats_one_triple() {
    let bg = Rgb { r: 51, g: 178, b: 204 };
    let mut fb = Framebuffer::new(4, 3);
    while fb.next_pixel().is_some() {
        fb.push(bg);
    }
    let bytes = encode_ppm(&fb).unwrap();
    let header = b"P6\n4 3\n255\n";
    assert_eq!(&bytes[..header.len()], &header[..]);
    assert_eq!(bytes.len(), header.len() + 36);
    for px in bytes[header.len()..].chunks(3) {
        assert_eq!(px, &[51, 178, 204]);
    }
}

#[test]
fn empty_image_is_header_only() {
    let fb: Framebuffer<Rgb> = Framebuffer::new(0, 0);
    assert_eq!(encode_ppm(&fb), Some(b"P6\n0 0\n255\n".to_vec()));
}
