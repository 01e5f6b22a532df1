use vstd::prelude::*;

use crate::pixels::RgbaImage;

verus! {

/// Why a byte sequence could not be decoded.
///
/// `BadHeader` means the bytes are not a JPEG stream at all (wrong magic
/// bytes, or no readable frame header). `Truncated` means the header was
/// readable but the pixel data could not be fully decoded.
#[derive(Clone, Copy, Debug, PartialEq, Eq, Structural)]
pub enum DecodeError {
    BadHeader,
    Truncated,
}

/// The big-endian 16-bit value stored in two bytes.
pub open spec fn be16(hi: u8, lo: u8) -> int {
    (hi as int) * 256 + (lo as int)
}

/// Start-of-frame markers: 0xC0 through 0xCF, except the huffman-table,
/// arithmetic-table and reserved markers that share that range.
pub open spec fn is_sof_marker(m: u8) -> bool {
    0xC0 <= m && m <= 0xCF && m != 0xC4 && m != 0xC8 && m != 0xCC
}

/// Markers that cannot legally stand between the start-of-image marker and
/// the frame header: a second start-of-image, end-of-image, start-of-scan,
/// a restart marker, or the standalone temporary marker.
pub open spec fn is_misplaced_marker(m: u8) -> bool {
    m == 0xD8 || m == 0xD9 || m == 0xDA || m == 0x01 || (0xD0 <= m && m <= 0xD7)
}

/// Walks the marker segments of a JPEG stream from position `i` until a
/// start-of-frame segment gives the image dimensions.
///
/// Each segment is a 0xFF byte, a marker byte, and (for the markers walked
/// here) a big-endian length that counts itself plus the payload. Fill bytes
/// (repeated 0xFF) are skipped one at a time. The frame header's payload is
/// precision (1 byte), height (2 bytes), width (2 bytes), then the component
/// layout; a frame with zero width or height is rejected.
pub open spec fn find_frame_dims(bytes: Seq<u8>, i: int) -> Option<(u32, u32)>
    decreases bytes.len() - i,
{
    if i < 0 || i + 4 > bytes.len() {
        None
    } else if bytes[i] != 0xFF {
        None
    } else if bytes[i + 1] == 0xFF {
        find_frame_dims(bytes, i + 1)
    } else if is_sof_marker(bytes[i + 1]) {
        let l = be16(bytes[i + 2], bytes[i + 3]);
        if l >= 7 && i + 2 + l <= bytes.len() {
            let h = be16(bytes[i + 5], bytes[i + 6]);
            let w = be16(bytes[i + 7], bytes[i + 8]);
            if w > 0 && h > 0 {
                Some((w as u32, h as u32))
            } else {
                None
            }
        } else {
            None
        }
    } else if is_misplaced_marker(bytes[i + 1]) {
        None
    } else {
        let l = be16(bytes[i + 2], bytes[i + 3]);
        if l >= 2 && i + 2 + l <= bytes.len() {
            find_frame_dims(bytes, i + 2 + l)
        } else {
            None
        }
    }
}

/// The intrinsic width and height of a JPEG stream, or `None` when the bytes
/// do not begin with the JPEG magic bytes or hold no readable frame header.
pub open spec fn header_dims(bytes: Seq<u8>) -> Option<(u32, u32)> {
    if bytes.len() >= 2 && bytes[0] == 0xFF && bytes[1] == 0xD8 {
        find_frame_dims(bytes, 2)
    } else {
        None
    }
}

/// Reads the intrinsic dimensions out of a JPEG header, exactly as
/// `header_dims` describes them.
pub fn parse_header_dims(data: &[u8]) -> (r: Option<(u32, u32)>)
    ensures
        r == header_dims(data@),
        r matches Some(d) ==> d.0 > 0 && d.1 > 0,
{
    let n = data.len();
    if n < 2 || data[0] != 0xFF || data[1] != 0xD8 {
        return None;
    }
    let mut i: usize = 2;
    loop
        invariant
            2 <= i <= n,
            n == data@.len(),
            data@.len() >= 2 && data@[0] == 0xFF && data@[1] == 0xD8,
            find_frame_dims(data@, i as int) == header_dims(data@),
        decreases n - i,
    {
        if n - i < 4 {
            return None;
        }
        if data[i] != 0xFF {
            return None;
        }
        let m = data[i + 1];
        if m == 0xFF {
            i = i + 1;
        } else if 0xC0 <= m && m <= 0xCF && m != 0xC4 && m != 0xC8 && m != 0xCC {
            let l: usize = (data[i + 2] as usize) * 256 + (data[i + 3] as usize);
            if l < 7 || l > n - (i + 2) {
                return None;
            }
            let h: u32 = (data[i + 5] as u32) * 256 + (data[i + 6] as u32);
            let w: u32 = (data[i + 7] as u32) * 256 + (data[i + 8] as u32);
            if w > 0 && h > 0 {
                return Some((w, h));
            } else {
                return None;
            }
        } else if m == 0xD8 || m == 0xD9 || m == 0xDA || m == 0x01 || (0xD0 <= m && m <= 0xD7) {
            return None;
        } else {
            let l: usize = (data[i + 2] as usize) * 256 + (data[i + 3] as usize);
            if l < 2 || l > n - (i + 2) {
                return None;
            }
            assert(find_frame_dims(data@, i as int) == find_frame_dims(data@, i + 2 + l));
            i = i + 2 + l;
        }
    }
}

proof fn lemma_find_frame_dims_positive(bytes: Seq<u8>, i: int)
    ensures
        find_frame_dims(bytes, i) matches Some(d) ==> d.0 > 0 && d.1 > 0,
    decreases bytes.len() - i,
{
    if i < 0 || i + 4 > bytes.len() {
    } else if bytes[i] != 0xFF {
    } else if bytes[i + 1] == 0xFF {
        lemma_find_frame_dims_positive(bytes, i + 1);
    } else if is_sof_marker(bytes[i + 1]) {
    } else if is_misplaced_marker(bytes[i + 1]) {
    } else {
        let l = be16(bytes[i + 2], bytes[i + 3]);
        if l >= 2 && i + 2 + l <= bytes.len() {
            lemma_find_frame_dims_positive(bytes, i + 2 + l);
        }
    }
}

/// The marker grammar only accepts non-empty images: any dimensions read out
/// of a frame header are positive, so a decoded buffer always holds at least
/// one pixel.
pub proof fn lemma_header_dims_positive(bytes: Seq<u8>)
    ensures
        header_dims(bytes) matches Some(d) ==> d.0 > 0 && d.1 > 0,
{
    if bytes.len() >= 2 && bytes[0] == 0xFF && bytes[1] == 0xD8 {
        lemma_find_frame_dims_positive(bytes, 2);
    }
}

/// What the external JPEG decoder yields for a byte sequence: the intrinsic
/// width and height and the full RGBA pixel buffer, or `None` when the bytes
/// cannot be decoded. The result depends on the bytes alone.
pub uninterp spec fn jpeg_decoded(bytes: Seq<u8>) -> Option<(u32, u32, Seq<u8>)>;

/// Relies on image::load_from_memory_with_format with the JPEG format and
/// image::DynamicImage::to_rgba8: decoding is a pure function of the input
/// bytes, every source color space is converted to 4-channel RGBA with full
/// opacity where the source has no alpha, and the returned buffer holds
/// exactly width * height * 4 bytes.
#[verifier::external_body]
fn decode_rgba(data: &[u8]) -> (r: Option<(u32, u32, Vec<u8>)>)
    ensures
        r is Some <==> jpeg_decoded(data@) is Some,
        r matches Some(t) ==> jpeg_decoded(data@) == Some((t.0, t.1, t.2@))
            && t.2@.len() == t.0 as int * t.1 as int * 4,
{
    match image::load_from_memory_with_format(data, image::ImageFormat::Jpeg) {
        Ok(img) => {
            let rgba = img.to_rgba8();
            Some((rgba.width(), rgba.height(), rgba.into_raw()))
        }
        Err(_) => None,
    }
}

/// What `decode_jpeg_slice` returns for a byte sequence, as plain values:
/// the malformed-header case, the undecodable-data cases, and the fully
/// decoded dimensions and pixel bytes.
pub open spec fn decode_spec(bytes: Seq<u8>) -> Result<(u32, u32, Seq<u8>), DecodeError> {
    match header_dims(bytes) {
        None => Err(DecodeError::BadHeader),
        Some(dims) => match jpeg_decoded(bytes) {
            None => Err(DecodeError::Truncated),
            Some(t) => if t.0 == dims.0 && t.1 == dims.1 {
                Ok(t)
            } else {
                Err(DecodeError::Truncated)
            },
        },
    }
}

/// The plain values carried by a decode result.
pub open spec fn decode_result_view(r: Result<RgbaImage, DecodeError>) -> Result<
    (u32, u32, Seq<u8>),
    DecodeError,
> {
    match r {
        Ok(img) => Ok((img.width, img.height, img.data@)),
        Err(e) => Err(e),
    }
}

/// Decodes one JPEG byte sequence into a raw RGBA pixel buffer.
///
/// The header is parsed for the intrinsic dimensions; bytes with no readable
/// frame header fail with `BadHeader`. The pixel data is then decoded into a
/// buffer of exactly width * height * 4 bytes; data the decoder cannot fully
/// decode, or that contradicts the frame header, fails with `Truncated`. No
/// partially filled buffer is ever returned, and no state survives the call.
pub fn decode_jpeg_slice(data: &[u8]) -> (r: Result<RgbaImage, DecodeError>)
    ensures
        decode_result_view(r) == decode_spec(data@),
        r matches Ok(img) ==> img.wf() && header_dims(data@) == Some((img.width, img.height))
            && img.width > 0 && img.height > 0,
        r == Err::<RgbaImage, DecodeError>(DecodeError::BadHeader) <==> header_dims(data@) is None,
{
    match parse_header_dims(data) {
        None => Err(DecodeError::BadHeader),
        Some((w, h)) => match decode_rgba(data) {
            None => Err(DecodeError::Truncated),
            Some((dw, dh, px)) => {
                if dw == w && dh == h {
                    Ok(RgbaImage::new(px, dw, dh))
                } else {
                    Err(DecodeError::Truncated)
                }
            },
        },
    }
}

/// Bytes that do not begin with the two JPEG magic bytes — in particular the
/// empty sequence — hold no frame header, so decoding them fails.
pub proof fn lemma_bad_magic_rejected(bytes: Seq<u8>)
    requires
        bytes.len() < 2 || bytes[0] != 0xFF || bytes[1] != 0xD8,
    ensures
        header_dims(bytes) is None,
        decode_spec(bytes) == Err::<(u32, u32, Seq<u8>), DecodeError>(DecodeError::BadHeader),
{
}

/// Decoding is deterministic and side-effect-free: the contract of
/// `decode_jpeg_slice` pins its result down as a function of the input bytes
/// alone, so two decodes of the same bytes yield bit-identical images.
pub proof fn lemma_decode_deterministic(
    bytes: Seq<u8>,
    r1: Result<RgbaImage, DecodeError>,
    r2: Result<RgbaImage, DecodeError>,
)
    requires
        decode_result_view(r1) == decode_spec(bytes),
        decode_result_view(r2) == decode_spec(bytes),
    ensures
        r1 is Ok <==> r2 is Ok,
        r1 matches Ok(a) ==> r2 matches Ok(b) && a.width == b.width && a.height == b.height
            && a.data@ == b.data@,
        r1 matches Err(e1) ==> r2 matches Err(e2) && e1 == e2,
{
}

} // verus!
