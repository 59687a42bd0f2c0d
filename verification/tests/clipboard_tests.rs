use sync_clipboard::clipboard::{
    content_is_empty, context_to_content, convert_to_bmp, copy_offer, dib_to_bmp, get_content,
    image_write_fallback, is_text_mime, ImageFallback,
};
use sync_clipboard::message::ClipboardContent;

#[test]
fn text_mime_types() {
    for m in [
        "text/plain",
        "text/html",
        "text/plain;charset=utf-8",
        "UTF8_STRING",
        "TEXT",
        "STRING",
        "text/",
    ] {
        assert!(is_text_mime(m), "{m}");
    }
    for m in ["image/png", "text", "TEXT/plain", "STRINGS", "", "application/json"] {
        assert!(!is_text_mime(m), "{m}");
    }
}

#[test]
fn context_conversion() {
    assert_eq!(context_to_content("text/plain".into(), vec![]), None);
    assert_eq!(
        context_to_content("text/plain".into(), b"hi".to_vec()),
        Some(ClipboardContent::Text("hi".into()))
    );
    assert_eq!(
        context_to_content("UTF8_STRING".into(), vec![b'a', 0xff]),
        Some(ClipboardContent::Text("a\u{FFFD}".into()))
    );
    assert_eq!(
        context_to_content("image/png".into(), vec![1, 2]),
        Some(ClipboardContent::Image {
            mime_type: "image/png".into(),
            data: vec![1, 2]
        })
    );
}

#[test]
fn content_emptiness() {
    assert!(content_is_empty(&ClipboardContent::Text(String::new())));
    assert!(!content_is_empty(&ClipboardContent::Text("a".into())));
}

#[test]
fn copy_offers() {
    assert!(copy_offer(ClipboardContent::Text(String::new())).is_none());
    let o = copy_offer(ClipboardContent::Text("hé".into())).unwrap();
    assert_eq!(o.data, "hé".as_bytes().to_vec());
    assert_eq!(o.mime_types, vec!["UTF8_STRING", "TEXT", "STRING", "text/plain"]);
    let o = copy_offer(ClipboardContent::Image {
        mime_type: "image/png".into(),
        data: vec![9],
    })
    .unwrap();
    assert_eq!(o.data, vec![9]);
    assert_eq!(o.mime_types, vec!["image/png"]);
    assert!(copy_offer(ClipboardContent::Image {
        mime_type: "image/png".into(),
        data: vec![]
    })
    .is_none());
}

#[test]
fn dib_gets_bmp_file_header() {
    let dib = vec![40, 0, 0, 0, 1, 2];
    let bmp = dib_to_bmp(dib.clone());
    let mut expected = vec![b'B', b'M', 20, 0, 0, 0, 0, 0, 0, 0, 54, 0, 0, 0];
    expected.extend_from_slice(&dib);
    assert_eq!(bmp, expected);
}

#[test]
fn windows_read_prefers_text_then_bitmap_then_dib() {
    assert_eq!(
        get_content(Some("t".into()), Some(vec![1]), Some(vec![2])),
        Some(ClipboardContent::Text("t".into()))
    );
    assert_eq!(
        get_content(Some(String::new()), Some(vec![1]), Some(vec![2])),
        Some(ClipboardContent::Image {
            mime_type: "image/bmp".into(),
            data: vec![1]
        })
    );
    assert_eq!(
        get_content(None, Some(vec![]), Some(vec![2])),
        Some(ClipboardContent::Image {
            mime_type: "image/bmp".into(),
            data: dib_to_bmp(vec![2])
        })
    );
    assert_eq!(get_content(None, None, Some(vec![])), None);
    assert_eq!(get_content(None, None, None), None);
}

#[test]
fn png_converts_to_24_bit_bmp() {
    let img = image::RgbImage::from_pixel(2, 2, image::Rgb([10, 20, 30]));
    let mut png = Vec::new();
    img.write_to(&mut std::io::Cursor::new(&mut png), image::ImageFormat::Png)
        .unwrap();
    let bmp = convert_to_bmp(&png).unwrap();
    assert_eq!(&bmp[0..2], b"BM");
    assert!(bmp.len() > 14);
    // bits per pixel at offset 28.
    assert_eq!(u16::from_le_bytes([bmp[28], bmp[29]]), 24);
    let back = image::load_from_memory(&bmp).unwrap().to_rgb8();
    assert_eq!(back.get_pixel(1, 1), &image::Rgb([10, 20, 30]));
}

#[test]
fn undecodable_image_does_not_convert() {
    assert_eq!(convert_to_bmp(&[1, 2, 3, 4]), None);
}

#[test]
fn invalid_utf8_text_read_is_not_empty() {
    match context_to_content("text/plain".into(), vec![0xff]) {
        Some(ClipboardContent::Text(s)) => assert_eq!(s, "\u{FFFD}"),
        other => panic!("unexpected {other:?}"),
    }
}

#[test]
fn offered_text_reads_back() {
    let s = "héllo ✓";
    let o = copy_offer(ClipboardContent::Text(s.into())).unwrap();
    for m in &o.mime_types {
        assert_eq!(
            context_to_content(m.clone(), o.data.clone()),
            Some(ClipboardContent::Text(s.into()))
        );
    }
}

#[test]
fn offered_image_reads_back() {
    let o = copy_offer(ClipboardContent::Image {
        mime_type: "image/png".into(),
        data: vec![1, 2, 3],
    })
    .unwrap();
    assert_eq!(
        context_to_content(o.mime_types[0].clone(), o.data.clone()),
        Some(ClipboardContent::Image {
            mime_type: "image/png".into(),
            data: vec![1, 2, 3]
        })
    );
}

#[test]
fn image_write_fallbacks() {
    assert!(matches!(
        image_write_fallback(&[1, 2, 3]),
        ImageFallback::RegisterRaw
    ));
    let img = image::RgbImage::from_pixel(1, 1, image::Rgb([1, 2, 3]));
    let mut png = Vec::new();
    img.write_to(&mut std::io::Cursor::new(&mut png), image::ImageFormat::Png)
        .unwrap();
    match image_write_fallback(&png) {
        ImageFallback::WriteBitmap(bmp) => assert_eq!(bmp, convert_to_bmp(&png).unwrap()),
        ImageFallback::RegisterRaw => panic!("expected a bitmap"),
    }
}
