//! Clipboard content rules shared by the platform back ends: which mime types are
//! text, how a clipboard read becomes content, what a clipboard write offers, and
//! how Windows bitmaps are framed.

use crate::message::{
    ClipboardContent,
    ContentView,
    le32,
    lossy_text,
    opt_bytes_view,
    opt_content_view,
    push_le32,
    utf8_lossy_string,
};
use crate::sync::{is_empty, is_empty_content};
use vstd::prelude::*;
use vstd::string::*;
use vstd::utf8::*;

verus! {

/// Whether `prefix` starts `s`.
fn str_starts_with(s: &str, prefix: &str) -> (r: bool)
    ensures
        r == prefix@.is_prefix_of(s@),
{
    let n = prefix.unicode_len();
    let m = s.unicode_len();
    if n > m {
        return false;
    }
    let mut i: usize = 0;
    while i < n
        invariant
            i <= n <= m,
            n == prefix@.len(),
            m == s@.len(),
            forall|j: int| 0 <= j < i ==> prefix@[j] == s@[j],
        decreases n - i,
    {
        if prefix.get_char(i) != s.get_char(i) {
            return false;
        }
        i += 1;
    }
    assert(prefix@ =~= s@.subrange(0, n as int));
    true
}

/// Whether two strings hold the same characters.
fn str_eq(a: &str, b: &str) -> (r: bool)
    ensures
        r == (a@ == b@),
{
    if a.unicode_len() != b.unicode_len() {
        return false;
    }
    let r = str_starts_with(a, b);
    proof {
        if r {
            assert(a@ =~= b@);
        }
    }
    r
}

/// The mime types that count as text: any `text/...` type and the X11 text targets.
pub open spec fn is_text_mime_spec(mime: Seq<char>) -> bool {
    ||| "text/"@.is_prefix_of(mime)
    ||| mime == "UTF8_STRING"@
    ||| mime == "TEXT"@
    ||| mime == "STRING"@
    ||| mime == "text/plain"@
    ||| mime == "text/plain;charset=utf-8"@
}

/// The listed `text/plain` types are `text/...` types: the text mime types are those
/// with a `text/` prefix and the three X11 text targets.
pub proof fn lemma_text_mimes_are_prefix_or_x11(mime: Seq<char>)
    ensures
        is_text_mime_spec(mime) <==> ("text/"@.is_prefix_of(mime) || mime == "UTF8_STRING"@
            || mime == "TEXT"@ || mime == "STRING"@),
{
    reveal_strlit("text/plain");
    reveal_strlit("text/plain;charset=utf-8");
    reveal_strlit("text/");
    if mime == "text/plain"@ || mime == "text/plain;charset=utf-8"@ {
        assert("text/"@.is_prefix_of(mime));
    }
}

/// Whether a clipboard mime type carries text.
pub fn is_text_mime(mime: &str) -> (r: bool)
    ensures
        r == is_text_mime_spec(mime@),
        r <==> ("text/"@.is_prefix_of(mime@) || mime@ == "UTF8_STRING"@ || mime@ == "TEXT"@
            || mime@ == "STRING"@),
{
    proof {
        lemma_text_mimes_are_prefix_or_x11(mime@);
    }
    str_starts_with(mime, "text/") || str_eq(mime, "UTF8_STRING") || str_eq(mime, "TEXT")
        || str_eq(mime, "STRING") || str_eq(mime, "text/plain") || str_eq(
        mime,
        "text/plain;charset=utf-8",
    )
}

/// The content of a clipboard read: nothing for no bytes, text for a text mime type,
/// an image of that mime type otherwise.
pub open spec fn content_of_context(mime_type: Seq<char>, context: Seq<u8>) -> Option<ContentView> {
    if context.len() == 0 {
        None
    } else if is_text_mime_spec(mime_type) {
        Some(ContentView::Text(lossy_text(context)))
    } else {
        Some(ContentView::Image { mime_type, data: context })
    }
}

/// Turn a clipboard read (its mime type and bytes) into content.
pub fn context_to_content(mime_type: String, context: Vec<u8>) -> (r: Option<ClipboardContent>)
    ensures
        opt_content_view(r) == content_of_context(mime_type@, context@),
        r matches Some(c) ==> !is_empty_content(c@),
        context@.len() == 0 ==> r is None,
        context@.len() > 0 && ("text/"@.is_prefix_of(mime_type@) || mime_type@ == "UTF8_STRING"@
            || mime_type@ == "TEXT"@ || mime_type@ == "STRING"@) ==> (r matches Some(
            ClipboardContent::Text(t),
        ) && (valid_utf8(context@) ==> t@ == decode_utf8(context@))),
        context@.len() > 0 && !("text/"@.is_prefix_of(mime_type@) || mime_type@ == "UTF8_STRING"@
            || mime_type@ == "TEXT"@ || mime_type@ == "STRING"@) ==> (r matches Some(
            ClipboardContent::Image { mime_type: m, data: d },
        ) && m@ == mime_type@ && d@ == context@),
{
    proof {
        lemma_text_mimes_are_prefix_or_x11(mime_type@);
    }
    if context.is_empty() {
        return None;
    }
    if is_text_mime(mime_type.as_str()) {
        let text = utf8_lossy_string(context.as_slice());
        Some(ClipboardContent::Text(text))
    } else {
        Some(ClipboardContent::Image { mime_type, data: context })
    }
}

/// Whether the content is empty; empty content is never written to the clipboard.
pub fn content_is_empty(content: &ClipboardContent) -> (r: bool)
    ensures
        r == is_empty_content(content@),
{
    is_empty(content)
}

/// What a clipboard write offers: the bytes and the mime types they are offered as.
pub struct ClipboardOffer {
    pub data: Vec<u8>,
    pub mime_types: Vec<String>,
}

/// The mime types that text is offered as.
pub open spec fn text_offer_mimes() -> Seq<Seq<char>> {
    seq!["UTF8_STRING"@, "TEXT"@, "STRING"@, "text/plain"@]
}

/// The views of a list of strings.
pub open spec fn strings_view(v: Seq<String>) -> Seq<Seq<char>> {
    v.map_values(|s: String| s@)
}

/// What writing `content` to the clipboard offers: nothing for empty content, the
/// text's UTF-8 bytes as the text mime types, or the image bytes as their mime type.
pub fn copy_offer(content: ClipboardContent) -> (r: Option<ClipboardOffer>)
    ensures
        is_empty_content(content@) ==> r is None,
        !is_empty_content(content@) ==> r is Some,
        r matches Some(o) ==> match content@ {
            ContentView::Text(s) => o.data@ == encode_utf8(s) && strings_view(o.mime_types@)
                == text_offer_mimes(),
            ContentView::Image { mime_type, data } => o.data@ == data && strings_view(
                o.mime_types@,
            ) == seq![mime_type],
        },
{
    if is_empty(&content) {
        return None;
    }
    match content {
        ClipboardContent::Text(s) => {
            let data = vstd::slice::slice_to_vec(s.as_str().as_bytes());
            let mut mime_types: Vec<String> = Vec::new();
            mime_types.push(String::from_str("UTF8_STRING"));
            mime_types.push(String::from_str("TEXT"));
            mime_types.push(String::from_str("STRING"));
            mime_types.push(String::from_str("text/plain"));
            assert(strings_view(mime_types@) =~= text_offer_mimes());
            Some(ClipboardOffer { data, mime_types })
        },
        ClipboardContent::Image { mime_type, data } => {
            let mut mime_types: Vec<String> = Vec::new();
            mime_types.push(mime_type);
            assert(strings_view(mime_types@) =~= seq![mime_types@[0]@]);
            Some(ClipboardOffer { data, mime_types })
        },
    }
}


/// The mime type given to bitmaps read from the Windows clipboard.
pub open spec fn bmp_mime() -> Seq<char> {
    "image/bmp"@
}

/// A BMP file from a DIB (`BITMAPINFOHEADER` and pixels): the 14-byte file header
/// `BM`, the file size (truncated to 32 bits), four reserved zero bytes and the pixel
/// data offset 54, then the DIB.
pub open spec fn bmp_from_dib(dib: Seq<u8>) -> Seq<u8> {
    seq![66u8, 77u8] + le32(((dib.len() + 14) % 0x1_0000_0000) as u32) + seq![0u8, 0u8, 0u8, 0u8]
        + le32(54) + dib
}

/// Prepend a BMP file header to a DIB, so that the wire format carries whole BMP files.
pub fn dib_to_bmp(dib: Vec<u8>) -> (r: Vec<u8>)
    ensures
        r@ == bmp_from_dib(dib@),
        r@.len() == dib@.len() + 14,
        r@[0] == 66u8 && r@[1] == 77u8,
        r@.len() < 0x1_0000_0000 ==> r@[2] as int + 256 * r@[3] as int + 65536 * r@[4] as int
            + 16777216 * r@[5] as int == r@.len(),
        r@[6] == 0u8 && r@[7] == 0u8 && r@[8] == 0u8 && r@[9] == 0u8,
        r@[10] as int + 256 * r@[11] as int + 65536 * r@[12] as int + 16777216 * r@[13] as int
            == 54,
        r@.subrange(14, r@.len() as int) == dib@,
{
    let mut dib = dib;
    let ghost d = dib@;
    let file_size: u32 = ((dib.len() as u64 % 0x1_0000_0000 + 14) % 0x1_0000_0000) as u32;
    assert(file_size == (d.len() + 14) % 0x1_0000_0000) by {
        vstd::arithmetic::div_mod::lemma_add_mod_noop(d.len() as int, 14, 0x1_0000_0000);
    }
    let mut bmp: Vec<u8> = Vec::new();
    bmp.push(66u8);  // 'B'
    bmp.push(77u8);  // 'M'
    push_le32(&mut bmp, file_size);
    bmp.push(0u8);
    bmp.push(0u8);
    bmp.push(0u8);
    bmp.push(0u8);
    push_le32(&mut bmp, 54);
    bmp.append(&mut dib);
    assert(bmp@ =~= bmp_from_dib(d));
    proof {
        lemma_bmp_from_dib_header(d);
    }
    bmp
}

/// The four little-endian bytes of a 32-bit value decode back to it.
pub proof fn lemma_le32_decodes(v: u32)
    ensures
        le32(v)[0] as int + 256 * le32(v)[1] as int + 65536 * le32(v)[2] as int + 16777216
            * le32(v)[3] as int == v,
{
    assert(v % 256 + 256 * (v / 256 % 256) + 65536 * (v / 65536 % 256) + 16777216 * (v
        / 16777216) == v) by (bit_vector);
}

/// A BMP file framed from a DIB is 14 bytes longer than the DIB, starts with `BM`,
/// carries its own total length in the size field whenever that fits 32 bits, four
/// zero bytes and the pixel data offset 54, then the DIB unchanged.
pub proof fn lemma_bmp_from_dib_header(dib: Seq<u8>)
    ensures
        bmp_from_dib(dib).len() == dib.len() + 14,
        bmp_from_dib(dib)[0] == 66u8 && bmp_from_dib(dib)[1] == 77u8,
        bmp_from_dib(dib).len() < 0x1_0000_0000 ==> bmp_from_dib(dib)[2] as int + 256
            * bmp_from_dib(dib)[3] as int + 65536 * bmp_from_dib(dib)[4] as int + 16777216
            * bmp_from_dib(dib)[5] as int == bmp_from_dib(dib).len(),
        bmp_from_dib(dib)[6] == 0u8 && bmp_from_dib(dib)[7] == 0u8 && bmp_from_dib(dib)[8] == 0u8
            && bmp_from_dib(dib)[9] == 0u8,
        bmp_from_dib(dib)[10] as int + 256 * bmp_from_dib(dib)[11] as int + 65536 * bmp_from_dib(
            dib,
        )[12] as int + 16777216 * bmp_from_dib(dib)[13] as int == 54,
        bmp_from_dib(dib).subrange(14, bmp_from_dib(dib).len() as int) == dib,
{
    let b = bmp_from_dib(dib);
    let size: u32 = ((dib.len() + 14) % 0x1_0000_0000) as u32;
    lemma_le32_decodes(size);
    lemma_le32_decodes(54);
    assert(b[2] == le32(size)[0] && b[3] == le32(size)[1] && b[4] == le32(size)[2] && b[5]
        == le32(size)[3]);
    assert(b[10] == le32(54)[0] && b[11] == le32(54)[1] && b[12] == le32(54)[2] && b[13]
        == le32(54)[3]);
    assert(b.subrange(14, b.len() as int) =~= dib);
}

/// The content of a Windows clipboard read: the first non-empty one of the Unicode
/// text, the `CF_BITMAP` bitmap (already a BMP file) and the `CF_DIB` data (framed as a
/// BMP file).
pub open spec fn windows_content(
    text: Option<Seq<char>>,
    bitmap: Option<Seq<u8>>,
    dib: Option<Seq<u8>>,
) -> Option<ContentView> {
    if text matches Some(t) && t.len() > 0 {
        Some(ContentView::Text(text->0))
    } else if bitmap matches Some(b) && b.len() > 0 {
        Some(ContentView::Image { mime_type: bmp_mime(), data: bitmap->0 })
    } else if dib matches Some(d) && d.len() > 0 {
        Some(ContentView::Image { mime_type: bmp_mime(), data: bmp_from_dib(dib->0) })
    } else {
        None
    }
}

/// The view of an optional string.
pub open spec fn opt_string_view(o: Option<String>) -> Option<Seq<char>> {
    match o {
        Some(s) => Some(s@),
        None => None,
    }
}

/// Choose the content of a Windows clipboard read from its three formats, each
/// `None` where the read failed.
pub fn get_content(text: Option<String>, bitmap: Option<Vec<u8>>, dib: Option<Vec<u8>>) -> (r:
    Option<ClipboardContent>)
    ensures
        opt_content_view(r) == windows_content(
            opt_string_view(text),
            opt_bytes_view(bitmap),
            opt_bytes_view(dib),
        ),
        r matches Some(c) ==> !is_empty_content(c@),
{
    if let Some(t) = text {
        if !t.as_str().is_empty() {
            return Some(ClipboardContent::Text(t));
        }
    }
    if let Some(b) = bitmap {
        if !b.is_empty() {
            return Some(ClipboardContent::Image { mime_type: String::from_str("image/bmp"), data: b });
        }
    }
    if let Some(d) = dib {
        if !d.is_empty() {
            let bmp = dib_to_bmp(d);
            return Some(ClipboardContent::Image { mime_type: String::from_str("image/bmp"), data: bmp });
        }
    }
    None
}


/// The width, height and RGB8 pixel rows that `image` decodes from an image file (PNG,
/// JPEG, BMP, GIF, WebP), if it can.
pub uninterp spec fn rgb8_decoding(data: Seq<u8>) -> Option<(u32, u32, Seq<u8>)>;

/// The 24-bit BMP file that `image`'s BMP encoder writes for RGB8 pixels, if it can.
pub uninterp spec fn bmp_rgb8_encoding(pixels: Seq<u8>, width: u32, height: u32) -> Option<Seq<u8>>;

#[verifier::external_type_specification]
#[verifier::external_body]
pub struct ExImageError(image::ImageError);

/// `image::load_from_memory`, then `DynamicImage::to_rgb8`: the image's width, height
/// and RGB8 pixel buffer, a function of the file bytes.
#[verifier::external_body]
fn decode_rgb8(data: &[u8]) -> (r: Result<(u32, u32, Vec<u8>), image::ImageError>)
    ensures
        match r {
            Ok((w, h, px)) => rgb8_decoding(data@) == Some((w, h, px@)),
            Err(_) => rgb8_decoding(data@) is None,
        },
{
    let rgb = image::load_from_memory(data)?.to_rgb8();
    Ok((rgb.width(), rgb.height(), rgb.into_raw()))
}

/// `image::codecs::bmp::BmpEncoder::encode` with `ExtendedColorType::Rgb8` into a
/// fresh buffer: the BMP file, a function of the pixels and dimensions. It panics
/// unless the buffer holds exactly `width * height` RGB pixels.
#[verifier::external_body]
fn encode_bmp_rgb8(pixels: &[u8], width: u32, height: u32) -> (r: Result<Vec<u8>, image::ImageError>)
    requires
        pixels@.len() == width * height * 3,
    ensures
        match r {
            Ok(b) => bmp_rgb8_encoding(pixels@, width, height) == Some(b@),
            Err(_) => bmp_rgb8_encoding(pixels@, width, height) is None,
        },
{
    let mut bmp: Vec<u8> = Vec::new();
    image::codecs::bmp::BmpEncoder::new(&mut bmp).encode(
        pixels,
        width,
        height,
        image::ExtendedColorType::Rgb8,
    )?;
    Ok(bmp)
}

/// The BMP file that an image file converts to: decoded to RGB8 and encoded as a
/// 24-bit BMP, kept only when it is longer than a bare file header.
pub open spec fn bmp_conversion(data: Seq<u8>) -> Option<Seq<u8>> {
    match rgb8_decoding(data) {
        Some((w, h, px)) => if px.len() == w * h * 3 {
            match bmp_rgb8_encoding(px, w, h) {
                Some(b) => if b.len() > 14 {
                    Some(b)
                } else {
                    None
                },
                None => None,
            }
        } else {
            None
        },
        None => None,
    }
}

/// Convert arbitrary image bytes (PNG, JPEG, etc.) to a complete BMP file, 24-bit RGB
/// (`BI_RGB`), which the Windows clipboard takes as a bitmap.
pub fn convert_to_bmp(data: &[u8]) -> (r: Option<Vec<u8>>)
    ensures
        opt_bytes_view(r) == bmp_conversion(data@),
{
    let (w, h, px) = match decode_rgb8(data) {
        Ok(img) => img,
        Err(_) => return None,
    };
    assert(w as u128 * h as u128 <= 0xffff_ffff_ffff_ffff) by (nonlinear_arith)
        requires
            w <= 0xffff_ffff,
            h <= 0xffff_ffff,
    ;
    if px.len() as u128 != w as u128 * h as u128 * 3 {
        return None;
    }
    let bmp = match encode_bmp_rgb8(px.as_slice(), w, h) {
        Ok(b) => b,
        Err(_) => return None,
    };
    if bmp.len() > 14 {
        Some(bmp)
    } else {
        None
    }
}


/// A Windows clipboard read never gives empty content.
pub proof fn lemma_windows_content_nonempty(
    text: Option<Seq<char>>,
    bitmap: Option<Seq<u8>>,
    dib: Option<Seq<u8>>,
)
    ensures
        windows_content(text, bitmap, dib) matches Some(c) ==> !is_empty_content(c),
{
}

/// Non-empty text, offered to the clipboard under any of the text mime types, reads
/// back from the clipboard as the same text.
pub proof fn lemma_offered_text_reads_back(s: Seq<char>, i: int)
    requires
        s.len() > 0,
        0 <= i < text_offer_mimes().len(),
    ensures
        content_of_context(text_offer_mimes()[i], encode_utf8(s)) == Some(ContentView::Text(s)),
{
    broadcast use encode_utf8_valid_utf8, encode_utf8_decode_utf8;

    assert(encode_utf8(s).len() > 0);
}

/// A non-empty image, offered to the clipboard under its mime type, reads back as the
/// same image when that mime type is not a text type.
pub proof fn lemma_offered_image_reads_back(mime_type: Seq<char>, data: Seq<u8>)
    requires
        data.len() > 0,
        !is_text_mime_spec(mime_type),
    ensures
        content_of_context(mime_type, data) == Some(ContentView::Image { mime_type, data }),
{
}

/// What a Windows image write falls back to when the image bytes are not a bitmap
/// the clipboard takes directly.
pub enum ImageFallback {
    /// Write this 24-bit BMP conversion as the bitmap.
    WriteBitmap(Vec<u8>),
    /// Register the mime type as a clipboard format and write the raw bytes under it.
    RegisterRaw,
}

/// Decide the fallback of a Windows image write after the direct bitmap write failed:
/// the BMP conversion of the image when there is one, the raw bytes otherwise.
pub fn image_write_fallback(data: &[u8]) -> (r: ImageFallback)
    ensures
        match bmp_conversion(data@) {
            Some(b) => r matches ImageFallback::WriteBitmap(x) && x@ == b,
            None => r is RegisterRaw,
        },
{
    match convert_to_bmp(data) {
        Some(bmp) => ImageFallback::WriteBitmap(bmp),
        None => ImageFallback::RegisterRaw,
    }
}


/// A non-empty clipboard read under any `text/...` mime type or an X11 text target is
/// text, decoded from its bytes.
pub proof fn lemma_text_mimes_read_as_text(mime_type: Seq<char>, context: Seq<u8>)
    requires
        context.len() > 0,
        "text/"@.is_prefix_of(mime_type) || mime_type == "UTF8_STRING"@ || mime_type == "TEXT"@
            || mime_type == "STRING"@,
    ensures
        content_of_context(mime_type, context) == Some(ContentView::Text(lossy_text(context))),
{
}

/// A non-empty clipboard read under any other mime type is an image of that mime type
/// with the bytes unchanged.
pub proof fn lemma_other_mimes_read_as_image(mime_type: Seq<char>, context: Seq<u8>)
    requires
        context.len() > 0,
        !("text/"@.is_prefix_of(mime_type) || mime_type == "UTF8_STRING"@ || mime_type
            == "TEXT"@ || mime_type == "STRING"@),
    ensures
        content_of_context(mime_type, context) == Some(
            ContentView::Image { mime_type, data: context },
        ),
{
    lemma_text_mimes_are_prefix_or_x11(mime_type);
}

} // verus!
