//! Binary wire protocol for clipboard sync.
//!
//! Wire format (all integers little-endian):
//! ```text
//! [1 byte: type] [4 bytes: uncompressed_len] [1 byte: compression] [payload...]
//! ```
//!
//! - type:   0 = Text (UTF-8), 1 = Image (mime + data)
//! - compression: 0 = none, 1 = zstd
//!
//! Image payload (after decompression):
//! ```text
//! [2 bytes: mime_len] [mime_bytes...] [image_data...]
//! ```

use sha2::Digest;
use vstd::prelude::*;
use vstd::slice::slice_subrange;
use vstd::slice::slice_to_vec;
use vstd::utf8::*;

verus! {

/// Threshold in bytes above which payloads are compressed.
pub const COMPRESS_THRESHOLD: usize = 1024;

/// Clipboard content that travels between peers.
#[derive(Debug, Clone, PartialEq, Eq)]
pub enum ClipboardContent {
    Text(String),
    Image { mime_type: String, data: Vec<u8> },
}

/// The mathematical value of a [`ClipboardContent`].
pub enum ContentView {
    Text(Seq<char>),
    Image { mime_type: Seq<char>, data: Seq<u8> },
}

impl View for ClipboardContent {
    type V = ContentView;

    open spec fn view(&self) -> ContentView {
        match self {
            ClipboardContent::Text(s) => ContentView::Text(s@),
            ClipboardContent::Image { mime_type, data } => ContentView::Image {
                mime_type: mime_type@,
                data: data@,
            },
        }
    }
}

/// The view of an optional content.
pub open spec fn opt_content_view(o: Option<ClipboardContent>) -> Option<ContentView> {
    match o {
        Some(c) => Some(c@),
        None => None,
    }
}

impl ClipboardContent {
    /// Check whether the content is an image type.
    pub fn is_image(&self) -> (r: bool)
        ensures
            r <==> self@ is Image,
    {
        match self {
            ClipboardContent::Image { .. } => true,
            ClipboardContent::Text(_) => false,
        }
    }

    /// Compute a SHA-256 hash for deduplication: over `T:` and the text's UTF-8 bytes,
    /// or over `I:`, the mime type, `:` and the image bytes.
    pub fn hash(&self) -> (r: [u8; 32])
        ensures
            r@ == content_digest(self@),
            self@ matches ContentView::Text(s) ==> r@ == sha256_digest(
                seq![84u8, 58u8] + encode_utf8(s),
            ),
            self@ matches ContentView::Image { mime_type, data } ==> r@ == sha256_digest(
                seq![73u8, 58u8] + encode_utf8(mime_type) + seq![58u8] + data,
            ),
    {
        let mut msg: Vec<u8> = Vec::new();
        match self {
            ClipboardContent::Text(s) => {
                msg.push(84u8);  // 'T'
                msg.push(58u8);  // ':'
                msg.extend_from_slice(s.as_str().as_bytes());
            },
            ClipboardContent::Image { mime_type, data } => {
                msg.push(73u8);  // 'I'
                msg.push(58u8);  // ':'
                msg.extend_from_slice(mime_type.as_str().as_bytes());
                msg.push(58u8);  // ':'
                msg.extend_from_slice(data.as_slice());
            },
        }
        assert(msg@ =~= hash_preimage(self@));
        sha256(msg.as_slice())
    }
}

/// Little-endian bytes of a 32-bit value, appended to `buf`.
pub(crate) fn push_le32(buf: &mut Vec<u8>, v: u32)
    ensures
        final(buf)@ == old(buf)@ + le32(v),
{
    buf.push((v % 256) as u8);
    buf.push((v / 256 % 256) as u8);
    buf.push((v / 65536 % 256) as u8);
    buf.push((v / 16777216) as u8);
    assert(buf@ =~= old(buf)@ + le32(v));
}

/// The uncompressed payload of a message: the text's UTF-8 bytes, or the mime
/// length, mime bytes and image bytes.
pub fn encode_payload(content: &ClipboardContent) -> (r: Vec<u8>)
    ensures
        r@ == payload_of(content@),
{
    match content {
        ClipboardContent::Text(s) => slice_to_vec(s.as_str().as_bytes()),
        ClipboardContent::Image { mime_type, data } => {
            let mime = mime_type.as_str().as_bytes();
            let mime_len: usize = if mime.len() <= 65535 {
                mime.len()
            } else {
                65535
            };
            let mut buf: Vec<u8> = Vec::new();
            buf.push((mime_len % 256) as u8);
            buf.push((mime_len / 256 % 256) as u8);
            buf.extend_from_slice(slice_subrange(mime, 0, mime_len));
            buf.extend_from_slice(data.as_slice());
            assert(buf@ =~= payload_of(content@));
            buf
        },
    }
}

/// The content that a payload of the given type byte carries: `None` for an unknown
/// type, or an image payload too short for its mime length.
pub fn decode_payload(payload: &[u8], content_type: u8) -> (r: Option<ClipboardContent>)
    ensures
        opt_content_view(r) == decoded_payload(payload@, content_type),
{
    if content_type == 0 {
        let text = utf8_lossy_string(payload);
        Some(ClipboardContent::Text(text))
    } else if content_type == 1 {
        if payload.len() < 2 {
            return None;
        }
        let mime_len: usize = payload[0] as usize + 256 * payload[1] as usize;
        if mime_len > payload.len() - 2 {
            return None;
        }
        let mime_type = utf8_lossy_string(slice_subrange(payload, 2, 2 + mime_len));
        let data = slice_to_vec(slice_subrange(payload, 2 + mime_len, payload.len()));
        Some(ClipboardContent::Image { mime_type, data })
    } else {
        None
    }
}

/// Frame a payload as a message: the type byte, the payload length (truncated to 32
/// bits), the compression flag and the body. A payload over [`COMPRESS_THRESHOLD`]
/// bytes goes out as `compressed`, its zstd frame, and no message is made when that
/// compression gave none; a smaller payload goes out as it is.
pub fn frame_message(is_image: bool, payload: Vec<u8>, compressed: Option<Vec<u8>>) -> (r: Option<
    Vec<u8>,
>)
    ensures
        opt_bytes_view(r) == framed(
            if is_image {
                1u8
            } else {
                0u8
            },
            payload@,
            opt_bytes_view(compressed),
        ),
{
    let uncompressed_len = payload.len() as u32;
    let should_compress = payload.len() > COMPRESS_THRESHOLD;
    let body = if should_compress {
        match compressed {
            Some(c) => c,
            None => return None,
        }
    } else {
        payload
    };
    let mut buf: Vec<u8> = Vec::new();
    buf.push(
        if is_image {
            1u8
        } else {
            0u8
        },
    );
    push_le32(&mut buf, uncompressed_len);
    buf.push(
        if should_compress {
            1u8
        } else {
            0u8
        },
    );
    buf.extend_from_slice(body.as_slice());
    assert(buf@ =~= frame_of(
        if is_image {
            1u8
        } else {
            0u8
        },
        uncompressed_len,
        if should_compress {
            1u8
        } else {
            0u8
        },
        body@,
    ));
    Some(buf)
}

/// Serialize content to wire format bytes. Payloads over [`COMPRESS_THRESHOLD`]
/// bytes are zstd-compressed; `None` exactly when that compression fails.
pub fn serialize(content: &ClipboardContent) -> (r: Option<Vec<u8>>)
    ensures
        opt_bytes_view(r) == serialized(content@),
        r is None <==> compresses(payload_of(content@).len()) && zstd_compressed(
            payload_of(content@),
        ) is None,
        r matches Some(b) ==> is_wire_encoding_of(content@, b@),
        r matches Some(b) ==> (mime_fits(content@) ==> deserialized(b@) == Some(content@)),
{
    let payload = encode_payload(content);
    let ghost p = payload@;
    let compressed = if payload.len() > COMPRESS_THRESHOLD {
        match zstd_encode(payload.as_slice()) {
            Ok(c) => Some(c),
            Err(_) => None,
        }
    } else {
        None
    };
    let r = frame_message(content.is_image(), payload, compressed);
    proof {
        let c = content@;
        if r is Some {
            let bv = r->0@;
            assert(bv.subrange(1, 5) =~= le32(p.len() as u32));
            assert(bv.subrange(6, bv.len() as int) =~= (if compresses(p.len()) {
                zstd_compressed(p)->0
            } else {
                p
            }));
            if mime_fits(c) {
                lemma_wire_roundtrip(c, bv);
            }
        }
    }
    r
}

/// Deserialize wire format bytes to content: `None` for a message shorter than its
/// header, a compressed body that is no zstd frame, or a payload that does not decode.
pub fn deserialize(data: &[u8]) -> (r: Option<ClipboardContent>)
    ensures
        opt_content_view(r) == deserialized(data@),
{
    if data.len() < 6 {
        return None;
    }
    let content_type = data[0];
    let compression = data[5];
    let payload = slice_subrange(data, 6, data.len());
    let decompressed: Vec<u8> = if compression == 1 {
        match zstd_decode(payload) {
            Ok(p) => p,
            Err(_) => return None,
        }
    } else {
        slice_to_vec(payload)
    };
    decode_payload(decompressed.as_slice(), content_type)
}

/// The hash input of an image holds all of its bytes: two images of one mime type
/// whose data differ anywhere are hashed over different bytes.
pub proof fn lemma_image_preimage_distinguishes_data(mime_type: Seq<char>, d1: Seq<u8>, d2: Seq<u8>)
    requires
        d1 != d2,
    ensures
        hash_preimage(ContentView::Image { mime_type, data: d1 }) != hash_preimage(
            ContentView::Image { mime_type, data: d2 },
        ),
{
    let h = seq![73u8, 58u8] + encode_utf8(mime_type) + seq![58u8];
    let p1 = hash_preimage(ContentView::Image { mime_type, data: d1 });
    let p2 = hash_preimage(ContentView::Image { mime_type, data: d2 });
    assert(p1 =~= h + d1);
    assert(p2 =~= h + d2);
    if p1 == p2 {
        assert(d1 =~= p1.subrange(h.len() as int, p1.len() as int));
        assert(d2 =~= p2.subrange(h.len() as int, p2.len() as int));
    }
}

/// The hash input of a text is its tag and all of its UTF-8 bytes: different texts are
/// hashed over different bytes, and a text never over the bytes of an image.
pub proof fn lemma_text_preimage_distinguishes(s: Seq<char>, c: ContentView)
    requires
        c != ContentView::Text(s),
    ensures
        hash_preimage(ContentView::Text(s)) != hash_preimage(c),
{
    broadcast use encode_utf8_decode_utf8;

    let p = hash_preimage(ContentView::Text(s));
    let q = hash_preimage(c);
    assert(p[0] == 84u8);
    match c {
        ContentView::Text(t) => {
            if p == q {
                assert(encode_utf8(s) =~= p.subrange(2, p.len() as int));
                assert(encode_utf8(t) =~= q.subrange(2, q.len() as int));
                assert(decode_utf8(encode_utf8(s)) == s);
                assert(decode_utf8(encode_utf8(t)) == t);
                assert(s == t);
            }
        },
        ContentView::Image { .. } => {
            assert(q[0] == 73u8);
        },
    }
}

/// Decoding a payload undoes its encoding, for every content whose mime bytes fit the
/// 16-bit length field.
pub proof fn lemma_payload_roundtrip(c: ContentView)
    requires
        mime_fits(c),
    ensures
        decoded_payload(payload_of(c), content_tag(c)) == Some(c),
{
    broadcast use encode_utf8_valid_utf8, encode_utf8_decode_utf8;

    match c {
        ContentView::Text(s) => {},
        ContentView::Image { mime_type, data } => {
            let mb = encode_utf8(mime_type);
            let n: int = mb.len() as int;
            let p = payload_of(c);
            assert(mb.take(n) =~= mb);
            assert(p[0] as int + 256 * p[1] as int == n);
            assert(p.subrange(2, 2 + n) =~= mb);
            assert(p.subrange(2 + n, p.len() as int) =~= data);
        },
    }
}

/// Every message that carries a content deserializes to that content, when the
/// content's mime bytes fit the 16-bit length field.
pub proof fn lemma_wire_roundtrip(c: ContentView, b: Seq<u8>)
    requires
        is_wire_encoding_of(c, b),
        mime_fits(c),
    ensures
        deserialized(b) == Some(c),
{
    lemma_payload_roundtrip(c);
}


/// Little-endian bytes of a 16-bit length.
pub open spec fn le16(v: nat) -> Seq<u8> {
    seq![(v % 256) as u8, (v / 256 % 256) as u8]
}

/// Little-endian bytes of a 32-bit value.
pub open spec fn le32(v: u32) -> Seq<u8> {
    seq![(v % 256) as u8, (v / 256 % 256) as u8, (v / 65536 % 256) as u8, (v / 16777216) as u8]
}

/// Number of mime bytes that an image payload carries: the mime's UTF-8 bytes, cut at
/// what a 16-bit length can count.
pub open spec fn wire_mime_len(mime_type: Seq<char>) -> nat {
    let n = encode_utf8(mime_type).len();
    if n <= 65535 {
        n
    } else {
        65535
    }
}

/// The type byte of a message.
pub open spec fn content_tag(c: ContentView) -> u8 {
    match c {
        ContentView::Text(_) => 0,
        ContentView::Image { .. } => 1,
    }
}

/// The uncompressed payload of a message.
pub open spec fn payload_of(c: ContentView) -> Seq<u8> {
    match c {
        ContentView::Text(s) => encode_utf8(s),
        ContentView::Image { mime_type, data } => {
            let n = wire_mime_len(mime_type);
            le16(n) + encode_utf8(mime_type).take(n as int) + data
        },
    }
}

/// A whole message: header, then body.
pub open spec fn frame_of(tag: u8, uncompressed_len: u32, compression: u8, body: Seq<u8>) -> Seq<u8> {
    seq![tag] + le32(uncompressed_len) + seq![compression] + body
}

/// Whether a payload of this length is sent compressed.
pub open spec fn compresses(payload_len: nat) -> bool {
    payload_len > COMPRESS_THRESHOLD
}

/// The message for payload `p` of type byte `tag`, given the zstd frame of `p` (if
/// compression gave one): compressed above the threshold, as it is otherwise.
pub open spec fn framed(tag: u8, p: Seq<u8>, compressed: Option<Seq<u8>>) -> Option<Seq<u8>> {
    if compresses(p.len()) {
        match compressed {
            Some(z) => Some(frame_of(tag, p.len() as u32, 1, z)),
            None => None,
        }
    } else {
        Some(frame_of(tag, p.len() as u32, 0, p))
    }
}

/// The bytes that `serialize` produces for a content, if any.
pub open spec fn serialized(c: ContentView) -> Option<Seq<u8>> {
    framed(content_tag(c), payload_of(c), zstd_compressed(payload_of(c)))
}

/// The view of an optional byte vector.
pub open spec fn opt_bytes_view(o: Option<Vec<u8>>) -> Option<Seq<u8>> {
    match o {
        Some(v) => Some(v@),
        None => None,
    }
}

/// `b` is a message that carries content `c`: the header names the content's type and
/// payload length, and the body is the payload, or a zstd frame that decompresses to it.
pub open spec fn is_wire_encoding_of(c: ContentView, b: Seq<u8>) -> bool {
    let p = payload_of(c);
    &&& b.len() >= 6
    &&& b[0] == content_tag(c)
    &&& b.subrange(1, 5) == le32(p.len() as u32)
    &&& if compresses(p.len()) {
        b[5] == 1 && zstd_decompressed(b.subrange(6, b.len() as int)) == Some(p)
    } else {
        b[5] == 0 && b.subrange(6, b.len() as int) == p
    }
}

/// Text decoded from bytes, invalid UTF-8 replaced: valid UTF-8 decodes as it is.
pub open spec fn lossy_text(bytes: Seq<u8>) -> Seq<char> {
    if valid_utf8(bytes) {
        decode_utf8(bytes)
    } else {
        utf8_lossy_replacement(bytes)
    }
}

/// The content that a payload of the given type byte carries.
pub open spec fn decoded_payload(p: Seq<u8>, content_type: u8) -> Option<ContentView> {
    if content_type == 0 {
        Some(ContentView::Text(lossy_text(p)))
    } else if content_type == 1 {
        if p.len() < 2 {
            None
        } else {
            let n = p[0] as int + 256 * p[1] as int;
            if 2 + n > p.len() {
                None
            } else {
                Some(
                    ContentView::Image {
                        mime_type: lossy_text(p.subrange(2, 2 + n)),
                        data: p.subrange(2 + n, p.len() as int),
                    },
                )
            }
        }
    } else {
        None
    }
}

/// The content that a message carries, if it is well formed.
pub open spec fn deserialized(data: Seq<u8>) -> Option<ContentView> {
    if data.len() < 6 {
        None
    } else {
        let body = data.subrange(6, data.len() as int);
        let payload = if data[5] == 1 {
            zstd_decompressed(body)
        } else {
            Some(body)
        };
        match payload {
            Some(p) => decoded_payload(p, data[0]),
            None => None,
        }
    }
}

/// The content's mime bytes fit the 16-bit length field (text always fits).
pub open spec fn mime_fits(c: ContentView) -> bool {
    match c {
        ContentView::Text(_) => true,
        ContentView::Image { mime_type, .. } => encode_utf8(mime_type).len() <= 65535,
    }
}

/// The bytes that the content hash is taken over.
pub open spec fn hash_preimage(c: ContentView) -> Seq<u8> {
    match c {
        ContentView::Text(s) => seq![84u8, 58u8] + encode_utf8(s),
        ContentView::Image { mime_type, data } => seq![73u8, 58u8] + encode_utf8(mime_type)
            + seq![58u8] + data,
    }
}

/// The content hash that deduplication compares.
pub open spec fn content_digest(c: ContentView) -> Seq<u8> {
    sha256_digest(hash_preimage(c))
}

/// SHA-256 of a byte sequence.
pub uninterp spec fn sha256_digest(msg: Seq<u8>) -> Seq<u8>;

/// The zstd frame that level 1 produces for the data, or `None` where zstd reports an
/// error for it.
pub uninterp spec fn zstd_compressed(data: Seq<u8>) -> Option<Seq<u8>>;

/// The data that a zstd frame decompresses to, if it is a valid frame.
pub uninterp spec fn zstd_decompressed(frame: Seq<u8>) -> Option<Seq<u8>>;

/// The text that lossy UTF-8 decoding gives for bytes that are not valid UTF-8.
pub uninterp spec fn utf8_lossy_replacement(bytes: Seq<u8>) -> Seq<char>;

#[verifier::external_type_specification]
#[verifier::external_body]
pub struct ExIoError(std::io::Error);

/// `sha2::Sha256::digest`: the SHA-256 digest of `msg`, a function of `msg` alone.
#[verifier::external_body]
fn sha256(msg: &[u8]) -> (r: [u8; 32])
    ensures
        r@ == sha256_digest(msg@),
{
    sha2::Sha256::digest(msg).into()
}

/// `zstd::encode_all` at level 1: success or failure, and the zstd frame on success,
/// are a function of `data` (the parameters are fixed and valid, so only zstd's own
/// error codes on the input can make it fail); the frame is one that
/// `zstd::decode_all` turns back into `data` (zstd is lossless).
#[verifier::external_body]
fn zstd_encode(data: &[u8]) -> (r: Result<Vec<u8>, std::io::Error>)
    ensures
        match r {
            Ok(c) => zstd_compressed(data@) == Some(c@) && zstd_decompressed(c@) == Some(data@),
            Err(_) => zstd_compressed(data@) is None,
        },
{
    zstd::encode_all(data, 1)
}

/// `zstd::decode_all`: the data that the frame decompresses to, or an error when
/// the bytes are not a valid zstd frame.
#[verifier::external_body]
fn zstd_decode(frame: &[u8]) -> (r: Result<Vec<u8>, std::io::Error>)
    ensures
        match r {
            Ok(p) => zstd_decompressed(frame@) == Some(p@),
            Err(_) => zstd_decompressed(frame@) is None,
        },
{
    zstd::decode_all(frame)
}

/// `String::from_utf8_lossy`, made owned: valid UTF-8 comes back as the text it
/// encodes; other bytes give their replacement text, in which every invalid sequence
/// becomes U+FFFD, so that bytes never give empty text.
#[verifier::external_body]
pub(crate) fn utf8_lossy_string(bytes: &[u8]) -> (r: String)
    ensures
        valid_utf8(bytes@) ==> r@ == decode_utf8(bytes@),
        !valid_utf8(bytes@) ==> r@ == utf8_lossy_replacement(bytes@),
        bytes@.len() > 0 ==> r@.len() > 0,
{
    String::from_utf8_lossy(bytes).into_owned()
}

} // verus!
