use sha2::Digest;
use sync_clipboard::message::{
    decode_payload, deserialize, encode_payload, frame_message, serialize, ClipboardContent,
    COMPRESS_THRESHOLD,
};

#[test]
fn test_text_roundtrip() {
    let content = ClipboardContent::Text("hello world".into());
    let bytes = serialize(&content).unwrap();
    let decoded = deserialize(&bytes).unwrap();
    assert_eq!(content, decoded);
}

#[test]
fn test_text_roundtrip_compressed() {
    let long_text = "A".repeat(2000);
    let content = ClipboardContent::Text(long_text.clone());
    let bytes = serialize(&content).unwrap();
    assert!(bytes.len() < long_text.len() + 10); // compressed smaller
    let decoded = deserialize(&bytes).unwrap();
    assert_eq!(content, decoded);
}

#[test]
fn test_image_roundtrip() {
    let content = ClipboardContent::Image {
        mime_type: "image/png".into(),
        data: vec![0x89, 0x50, 0x4E, 0x47],
    };
    let bytes = serialize(&content).unwrap();
    let decoded = deserialize(&bytes).unwrap();
    assert_eq!(content, decoded);
}

#[test]
fn test_hash_different() {
    let a = ClipboardContent::Text("foo".into());
    let b = ClipboardContent::Text("bar".into());
    assert_ne!(a.hash(), b.hash());
}

#[test]
fn text_message_exact_bytes() {
    let bytes = serialize(&ClipboardContent::Text("hi".into())).unwrap();
    assert_eq!(bytes, vec![0, 2, 0, 0, 0, 0, b'h', b'i']);
}

#[test]
fn image_message_exact_bytes() {
    let content = ClipboardContent::Image {
        mime_type: "a/b".into(),
        data: vec![7, 8],
    };
    let bytes = serialize(&content).unwrap();
    assert_eq!(bytes, vec![1, 7, 0, 0, 0, 0, 3, 0, b'a', b'/', b'b', 7, 8]);
}

#[test]
fn payload_at_threshold_is_not_compressed() {
    let content = ClipboardContent::Text("x".repeat(COMPRESS_THRESHOLD));
    let bytes = serialize(&content).unwrap();
    assert_eq!(bytes[5], 0);
    assert_eq!(bytes.len(), 6 + COMPRESS_THRESHOLD);
}

#[test]
fn compressed_header_carries_uncompressed_length() {
    let content = ClipboardContent::Text("A".repeat(2000));
    let bytes = serialize(&content).unwrap();
    assert_eq!(bytes[0], 0);
    assert_eq!(&bytes[1..5], &2000u32.to_le_bytes());
    assert_eq!(bytes[5], 1);
    assert_ne!(&bytes[6..], "A".repeat(2000).as_bytes());
    assert_eq!(zstd::decode_all(&bytes[6..]).unwrap(), "A".repeat(2000).into_bytes());
}

#[test]
fn multibyte_text_roundtrip() {
    let content = ClipboardContent::Text("héllo wörld ✓ 🎉".into());
    let bytes = serialize(&content).unwrap();
    assert_eq!(deserialize(&bytes).unwrap(), content);
}

#[test]
fn compressed_image_roundtrip() {
    let data: Vec<u8> = (0..5000u32).map(|i| (i % 7) as u8).collect();
    let content = ClipboardContent::Image {
        mime_type: "image/bmp".into(),
        data,
    };
    let bytes = serialize(&content).unwrap();
    assert_eq!(bytes[0], 1);
    assert_eq!(bytes[5], 1);
    assert_eq!(deserialize(&bytes).unwrap(), content);
}

#[test]
fn long_mime_type_is_cut_to_u16_max() {
    let content = ClipboardContent::Image {
        mime_type: "m".repeat(70000),
        data: vec![1, 2, 3],
    };
    let payload = encode_payload(&content);
    assert_eq!(&payload[0..2], &[0xff, 0xff]);
    assert_eq!(payload.len(), 2 + 65535 + 3);
    let bytes = serialize(&content).unwrap();
    match deserialize(&bytes).unwrap() {
        ClipboardContent::Image { mime_type, data } => {
            assert_eq!(mime_type, "m".repeat(65535));
            assert_eq!(data, vec![1, 2, 3]);
        }
        other => panic!("unexpected {other:?}"),
    }
}

#[test]
fn deserialize_rejects_short_message() {
    assert_eq!(deserialize(&[]), None);
    assert_eq!(deserialize(&[0, 0, 0, 0, 0]), None);
}

#[test]
fn deserialize_empty_text_body() {
    assert_eq!(
        deserialize(&[0, 0, 0, 0, 0, 0]),
        Some(ClipboardContent::Text(String::new()))
    );
}

#[test]
fn deserialize_rejects_unknown_type() {
    assert_eq!(deserialize(&[2, 0, 0, 0, 0, 0, 1, 2]), None);
}

#[test]
fn deserialize_rejects_bad_zstd_frame() {
    assert_eq!(deserialize(&[0, 3, 0, 0, 0, 1, 1, 2, 3]), None);
}

#[test]
fn deserialize_ignores_length_mismatch() {
    assert_eq!(
        deserialize(&[0, 99, 0, 0, 0, 0, b'o', b'k']),
        Some(ClipboardContent::Text("ok".into()))
    );
}

#[test]
fn decode_payload_image_errors() {
    assert_eq!(decode_payload(&[5], 1), None);
    assert_eq!(decode_payload(&[4, 0, b'a', b'b', b'c'], 1), None);
    assert_eq!(
        decode_payload(&[3, 0, b'a', b'b', b'c'], 1),
        Some(ClipboardContent::Image {
            mime_type: "abc".into(),
            data: vec![]
        })
    );
    assert_eq!(decode_payload(b"x", 7), None);
}

#[test]
fn decode_payload_replaces_invalid_utf8() {
    assert_eq!(
        decode_payload(&[b'a', 0xff, b'b'], 0),
        Some(ClipboardContent::Text("a\u{FFFD}b".into()))
    );
}

#[test]
fn hash_is_sha256_of_tagged_content() {
    let text = ClipboardContent::Text("foo".into());
    let expected: [u8; 32] = sha2::Sha256::digest(b"T:foo").into();
    assert_eq!(text.hash(), expected);
    let image = ClipboardContent::Image {
        mime_type: "image/png".into(),
        data: vec![1, 2],
    };
    let expected: [u8; 32] = sha2::Sha256::digest(b"I:image/png:\x01\x02").into();
    assert_eq!(image.hash(), expected);
}

#[test]
fn text_and_image_hash_differently() {
    let text = ClipboardContent::Text("x".into());
    let image = ClipboardContent::Image {
        mime_type: "x".into(),
        data: vec![],
    };
    assert_ne!(text.hash(), image.hash());
}

#[test]
fn is_image_tells_variants_apart() {
    assert!(!ClipboardContent::Text("a".into()).is_image());
    assert!(ClipboardContent::Image {
        mime_type: "image/png".into(),
        data: vec![1]
    }
    .is_image());
}

#[test]
fn frame_message_small_payload_goes_out_as_is() {
    assert_eq!(
        frame_message(true, vec![5, 6], Some(vec![9])),
        Some(vec![1, 2, 0, 0, 0, 0, 5, 6])
    );
    assert_eq!(
        frame_message(false, vec![], None),
        Some(vec![0, 0, 0, 0, 0, 0])
    );
}

#[test]
fn frame_message_large_payload_needs_its_compression() {
    let payload = vec![7u8; 1025];
    assert_eq!(frame_message(false, payload.clone(), None), None);
    assert_eq!(
        frame_message(false, payload, Some(vec![1, 2, 3])),
        Some(vec![0, 0x01, 0x04, 0, 0, 1, 1, 2, 3])
    );
}

#[test]
fn threshold_boundary_messages() {
    let at = serialize(&ClipboardContent::Text("A".repeat(1024))).unwrap();
    assert_eq!(at.len(), 1030);
    assert_eq!(at[5], 0);
    let over = serialize(&ClipboardContent::Text("A".repeat(1025))).unwrap();
    assert_eq!(over[5], 1);
    assert_eq!(&over[1..5], &[0x01, 0x04, 0, 0]);
}
