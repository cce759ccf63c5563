use tray_shell::icon::{resolve_tray_icon, TrayIconSource};

fn png_bytes(width: u32, height: u32, pixel: [u8; 4]) -> Vec<u8> {
    let img = image::RgbaImage::from_pixel(width, height, image::Rgba(pixel));
    let mut buf: Vec<u8> = Vec::new();
    img.write_to(&mut std::io::Cursor::new(&mut buf), image::ImageFormat::Png)
        .expect("encoding a PNG into memory cannot fail");
    buf
}

#[test]
fn valid_png_decodes_to_its_pixels() {
    let bytes = png_bytes(2, 3, [10, 20, 30, 40]);
    match resolve_tray_icon(&bytes) {
        TrayIconSource::Decoded { rgba, width, height } => {
            assert_eq!(width, 2);
            assert_eq!(height, 3);
            assert_eq!(rgba.len(), 4 * 2 * 3);
            let expected: Vec<u8> = [10u8, 20, 30, 40].repeat(6);
            assert_eq!(rgba, expected);
        }
        TrayIconSource::HostDefault => panic!("a valid PNG must decode"),
    }
}

#[test]
fn undecodable_bytes_fall_back_to_host_default() {
    let r = resolve_tray_icon(&[1, 2, 3, 4, 5]);
    assert_eq!(r, TrayIconSource::HostDefault);
}

#[test]
fn empty_bytes_fall_back_to_host_default() {
    let r = resolve_tray_icon(&[]);
    assert_eq!(r, TrayIconSource::HostDefault);
}

#[test]
fn truncated_png_falls_back_to_host_default() {
    let bytes = png_bytes(4, 4, [0, 0, 0, 255]);
    let r = resolve_tray_icon(&bytes[..bytes.len() / 2]);
    assert_eq!(r, TrayIconSource::HostDefault);
}
