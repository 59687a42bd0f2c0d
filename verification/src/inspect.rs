//! Diagnostics on clipboard content: the image format that magic bytes name.

use vstd::prelude::*;

verus! {

/// The image format that the leading bytes of `d` name.
pub open spec fn image_format_name(d: Seq<u8>) -> Seq<char> {
    if d.len() < 4 {
        "too short"@
    } else if d[0] == 0x42 && d[1] == 0x4d {
        "BMP"@
    } else if d[0] == 0x89 && d[1] == 0x50 && d[2] == 0x4e && d[3] == 0x47 {
        "PNG"@
    } else if d[0] == 0xff && d[1] == 0xd8 {
        "JPEG"@
    } else if d[0] == 0x52 && d[1] == 0x49 && d[2] == 0x46 && d[3] == 0x46 && d.len() >= 12
        && d[8] == 0x57 && d[9] == 0x45 && d[10] == 0x42 && d[11] == 0x50 {
        "WebP"@
    } else if d[0] == 0x47 && d[1] == 0x49 && d[2] == 0x46 && d[3] == 0x38 {
        "GIF"@
    } else if d[0] == 0 && d[1] == 0 && d[2] == 1 && d[3] == 0 {
        "ICO"@
    } else if d[0] as int + 256 * d[1] as int + 65536 * d[2] as int + 16777216 * d[3] as int
        == 40 {
        "DIB (BITMAPINFOHEADER)"@
    } else {
        "unknown"@
    }
}

/// Each format's magic bytes name that format, whatever follows them: the magic
/// numbers differ in their first byte, so no format hides another; inputs shorter than
/// four bytes are too short, and inputs with none of them are unknown.
pub proof fn lemma_magic_bytes_name_formats(d: Seq<u8>)
    ensures
        d.len() < 4 ==> image_format_name(d) == "too short"@,
        d.len() >= 4 && d[0] == 0x42 && d[1] == 0x4d ==> image_format_name(d) == "BMP"@,
        d.len() >= 4 && d[0] == 0x89 && d[1] == 0x50 && d[2] == 0x4e && d[3] == 0x47 ==> image_format_name(d)
            == "PNG"@,
        d.len() >= 4 && d[0] == 0xff && d[1] == 0xd8 ==> image_format_name(d) == "JPEG"@,
        d.len() >= 12 && d[0] == 0x52 && d[1] == 0x49 && d[2] == 0x46 && d[3] == 0x46 && d[8]
            == 0x57 && d[9] == 0x45 && d[10] == 0x42 && d[11] == 0x50 ==> image_format_name(d) == "WebP"@,
        d.len() >= 4 && d[0] == 0x47 && d[1] == 0x49 && d[2] == 0x46 && d[3] == 0x38 ==> image_format_name(d)
            == "GIF"@,
        d.len() >= 4 && d[0] == 0 && d[1] == 0 && d[2] == 1 && d[3] == 0 ==> image_format_name(d) == "ICO"@,
        d.len() >= 4 && d[0] as int + 256 * d[1] as int + 65536 * d[2] as int + 16777216
            * d[3] as int == 40 ==> image_format_name(d) == "DIB (BITMAPINFOHEADER)"@,
        d.len() >= 4 && !(d[0] == 0x42 && d[1] == 0x4d) && !(d[0] == 0x89 && d[1] == 0x50
            && d[2] == 0x4e && d[3] == 0x47) && !(d[0] == 0xff && d[1] == 0xd8) && !(d.len()
            >= 12 && d[0] == 0x52 && d[1] == 0x49 && d[2] == 0x46 && d[3] == 0x46 && d[8] == 0x57
            && d[9] == 0x45 && d[10] == 0x42 && d[11] == 0x50) && !(d[0] == 0x47 && d[1] == 0x49
            && d[2] == 0x46 && d[3] == 0x38) && !(d[0] == 0 && d[1] == 0 && d[2] == 1 && d[3]
            == 0) && d[0] as int + 256 * d[1] as int + 65536 * d[2] as int + 16777216 * d[3] as int
            != 40 ==> image_format_name(d) == "unknown"@,
{
}

/// Detect image format from magic bytes.
pub fn detect_image_format(data: &[u8]) -> (r: &'static str)
    ensures
        r@ == image_format_name(data@),
        data@.len() < 4 ==> r@ == "too short"@,
        data@.len() >= 4 && data@[0] == 0x42 && data@[1] == 0x4d ==> r@ == "BMP"@,
        data@.len() >= 4 && data@[0] == 0x89 && data@[1] == 0x50 && data@[2] == 0x4e && data@[3] == 0x47 ==> r@
            == "PNG"@,
        data@.len() >= 4 && data@[0] == 0xff && data@[1] == 0xd8 ==> r@ == "JPEG"@,
        data@.len() >= 12 && data@[0] == 0x52 && data@[1] == 0x49 && data@[2] == 0x46 && data@[3] == 0x46 && data@[8]
            == 0x57 && data@[9] == 0x45 && data@[10] == 0x42 && data@[11] == 0x50 ==> r@ == "WebP"@,
        data@.len() >= 4 && data@[0] == 0x47 && data@[1] == 0x49 && data@[2] == 0x46 && data@[3] == 0x38 ==> r@
            == "GIF"@,
        data@.len() >= 4 && data@[0] == 0 && data@[1] == 0 && data@[2] == 1 && data@[3] == 0 ==> r@ == "ICO"@,
        data@.len() >= 4 && data@[0] as int + 256 * data@[1] as int + 65536 * data@[2] as int + 16777216
            * data@[3] as int == 40 ==> r@ == "DIB (BITMAPINFOHEADER)"@,
        data@.len() >= 4 && !(data@[0] == 0x42 && data@[1] == 0x4d) && !(data@[0] == 0x89 && data@[1] == 0x50
            && data@[2] == 0x4e && data@[3] == 0x47) && !(data@[0] == 0xff && data@[1] == 0xd8) && !(data@.len()
            >= 12 && data@[0] == 0x52 && data@[1] == 0x49 && data@[2] == 0x46 && data@[3] == 0x46 && data@[8] == 0x57
            && data@[9] == 0x45 && data@[10] == 0x42 && data@[11] == 0x50) && !(data@[0] == 0x47 && data@[1] == 0x49
            && data@[2] == 0x46 && data@[3] == 0x38) && !(data@[0] == 0 && data@[1] == 0 && data@[2] == 1 && data@[3]
            == 0) && data@[0] as int + 256 * data@[1] as int + 65536 * data@[2] as int + 16777216 * data@[3] as int
            != 40 ==> r@ == "unknown"@,
{
    proof {
        lemma_magic_bytes_name_formats(data@);
    }
    if data.len() < 4 {
        return "too short";
    }
    if data[0] == 0x42 && data[1] == 0x4d {
        return "BMP";
    }
    if data[0] == 0x89 && data[1] == 0x50 && data[2] == 0x4e && data[3] == 0x47 {
        return "PNG";
    }
    if data[0] == 0xff && data[1] == 0xd8 {
        return "JPEG";
    }
    if data[0] == 0x52 && data[1] == 0x49 && data[2] == 0x46 && data[3] == 0x46 && data.len() >= 12
        && data[8] == 0x57 && data[9] == 0x45 && data[10] == 0x42 && data[11] == 0x50 {
        return "WebP";
    }
    if data[0] == 0x47 && data[1] == 0x49 && data[2] == 0x46 && data[3] == 0x38 {
        return "GIF";
    }
    if data[0] == 0 && data[1] == 0 && data[2] == 1 && data[3] == 0 {
        return "ICO";
    }
    // DIB header starts with BITMAPINFOHEADER size (40 = 0x28), little-endian.
    let header_size: u32 = data[0] as u32 + 256 * data[1] as u32 + 65536 * data[2] as u32
        + 16777216 * data[3] as u32;
    if header_size == 40 {
        return "DIB (BITMAPINFOHEADER)";
    }
    "unknown"
}

} // verus!
