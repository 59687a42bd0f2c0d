use sync_clipboard::inspect::detect_image_format;

#[test]
fn image_formats_from_magic_bytes() {
    assert_eq!(detect_image_format(b"BM"), "too short");
    assert_eq!(detect_image_format(b"BM\0\0"), "BMP");
    assert_eq!(detect_image_format(b"\x89PNG\r\n"), "PNG");
    assert_eq!(detect_image_format(b"\xff\xd8\xff\xe0"), "JPEG");
    assert_eq!(detect_image_format(b"RIFF\0\0\0\0WEBPVP8 "), "WebP");
    assert_eq!(detect_image_format(b"GIF89a"), "GIF");
    assert_eq!(detect_image_format(b"\x00\x00\x01\x00"), "ICO");
    assert_eq!(detect_image_format(b"\x28\x00\x00\x00\x10"), "DIB (BITMAPINFOHEADER)");
    assert_eq!(detect_image_format(b"RIFF\0\0\0\0"), "unknown");
    assert_eq!(detect_image_format(b"RIFF\0\0\0\0WAVE"), "unknown");
    assert_eq!(detect_image_format(b"abcd"), "unknown");
}
