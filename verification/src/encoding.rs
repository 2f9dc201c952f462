use vstd::prelude::*;

use crate::error::ExportError;

verus! {

// ---------------------------------------------------------------------------
// Big-endian byte images of the primitive TIFF field types.
// ---------------------------------------------------------------------------

/// The two big-endian bytes of a 16-bit value (given as a mathematical
/// integer; callers keep it in `[0, 2^16)`).
pub open spec fn be16(v: int) -> Seq<u8> {
    seq![((v / 256) % 256) as u8, (v % 256) as u8]
}

/// The four big-endian bytes of a 32-bit value.
pub open spec fn be32(v: int) -> Seq<u8> {
    seq![
        ((v / 0x1000000) % 256) as u8,
        ((v / 0x10000) % 256) as u8,
        ((v / 256) % 256) as u8,
        (v % 256) as u8,
    ]
}

/// A signed 16-bit sample reinterpreted as its unsigned two's-complement
/// image.
pub open spec fn sample_to_u16(v: i16) -> int {
    if v >= 0 {
        v as int
    } else {
        v + 0x10000
    }
}

/// The two big-endian bytes of one signed 16-bit sample.
pub open spec fn sample_be_bytes(v: i16) -> Seq<u8> {
    be16(sample_to_u16(v))
}

/// The flat pixel block: every sample byte-swapped to big-endian, in order.
pub open spec fn pixel_bytes(s: Seq<i16>) -> Seq<u8> {
    Seq::new(
        2 * s.len(),
        |i: int| if i % 2 == 0 {
            sample_be_bytes(s[i / 2])[0]
        } else {
            sample_be_bytes(s[i / 2])[1]
        },
    )
}

/// The sample read back from two big-endian bytes, two's complement.
pub open spec fn sample_from_be(hi: u8, lo: u8) -> i16 {
    if hi * 256 + lo < 0x8000 {
        (hi * 256 + lo) as i16
    } else {
        (hi * 256 + lo - 0x10000) as i16
    }
}

/// The samples a standards-compliant reader recovers from a big-endian
/// pixel block.
pub open spec fn decoded_pixels(bytes: Seq<u8>) -> Seq<i16> {
    Seq::new(bytes.len() / 2, |i: int| sample_from_be(bytes[2 * i], bytes[2 * i + 1]))
}

/// Byte-swapping to big-endian loses nothing: decoding the pixel block
/// recovers every signed sample exactly, including negative values and the
/// extremes of the 16-bit range.
pub proof fn lemma_pixel_bytes_round_trip(s: Seq<i16>)
    ensures
        decoded_pixels(pixel_bytes(s)) == s,
{
    let bytes = pixel_bytes(s);
    assert forall|i: int| 0 <= i < s.len() implies decoded_pixels(bytes)[i] == s[i] by {
        let u = sample_to_u16(s[i]);
        assert(bytes[2 * i] == ((u / 256) % 256) as u8);
        assert(bytes[2 * i + 1] == (u % 256) as u8);
        assert(0 <= u < 0x10000);
        assert((u / 256) % 256 == u / 256);
        assert((u / 256) * 256 + u % 256 == u);
    }
    assert(decoded_pixels(pixel_bytes(s)) =~= s);
}

// ---------------------------------------------------------------------------
// Executable big-endian serialization.
// ---------------------------------------------------------------------------

fn push_u16_be(out: &mut Vec<u8>, v: u16)
    ensures
        final(out)@ == old(out)@ + be16(v as int),
{
    out.push((v / 256) as u8);
    out.push((v % 256) as u8);
    proof {
        assert(out@ =~= old(out)@ + be16(v as int));
    }
}

fn push_u32_be(out: &mut Vec<u8>, v: u32)
    ensures
        final(out)@ == old(out)@ + be32(v as int),
{
    out.push((v / 0x1000000) as u8);
    out.push((v / 0x10000 % 256) as u8);
    out.push((v / 256 % 256) as u8);
    out.push((v % 256) as u8);
    proof {
        assert(out@ =~= old(out)@ + be32(v as int));
    }
}

fn push_sample_be(out: &mut Vec<u8>, v: i16)
    ensures
        final(out)@ == old(out)@ + sample_be_bytes(v),
{
    let u: u16 = if v >= 0 {
        v as u16
    } else {
        (v as i32 + 0x10000) as u16
    };
    proof {
        assert(u as int == sample_to_u16(v));
    }
    out.push((u / 256) as u8);
    out.push((u % 256) as u8);
    proof {
        assert(out@ =~= old(out)@ + sample_be_bytes(v));
    }
}

/// Appending one more sample extends the pixel block by that sample's two
/// big-endian bytes.
proof fn lemma_pixel_bytes_step(s: Seq<i16>, i: int)
    requires
        0 <= i < s.len(),
    ensures
        pixel_bytes(s.take(i + 1)) == pixel_bytes(s.take(i)) + sample_be_bytes(s[i]),
{
    assert(pixel_bytes(s.take(i + 1)) =~= pixel_bytes(s.take(i)) + sample_be_bytes(s[i]));
}

/// Appends the big-endian pixel block of `data` to `out`.
fn push_pixels_be(out: &mut Vec<u8>, data: &[i16])
    ensures
        final(out)@ == old(out)@ + pixel_bytes(data@),
{
    let n = data.len();
    let mut i: usize = 0;
    while i < n
        invariant
            i <= n,
            n == data@.len(),
            out@ == old(out)@ + pixel_bytes(data@.take(i as int)),
        decreases n - i,
    {
        let v = *vstd::slice::slice_index_get(data, i);
        push_sample_be(out, v);
        proof {
            lemma_pixel_bytes_step(data@, i as int);
        }
        i = i + 1;
    }
    proof {
        assert(data@.take(n as int) =~= data@);
        assert(pixel_bytes(data@.take(i as int)) =~= pixel_bytes(data@));
    }
}

// ---------------------------------------------------------------------------
// The hand-assembled baseline TIFF, explicit big-endian.
//
// Layout, all offsets fixed:
//   0   .. 8     header: "MM", magic 42, offset 8 of the sole IFD
//   8   .. 170   IFD: entry count 13, thirteen 12-byte entries sorted by
//                tag, next-IFD offset 0
//   170 .. 178   XResolution value 1/1
//   178 .. 186   YResolution value 1/1
//   186 ..       the pixel block, one strip covering the whole image
// ---------------------------------------------------------------------------

/// One IFD entry whose value field holds a 32-bit word: a LONG value, or
/// the file offset of an out-of-line value.
pub open spec fn ifd_entry_u32(tag: int, typ: int, value: int) -> Seq<u8> {
    be16(tag) + be16(typ) + be32(1) + be32(value)
}

/// One IFD entry of type SHORT (3) with a single value, left-justified in
/// the four value bytes as big-endian files require.
pub open spec fn ifd_entry_short(tag: int, value: int) -> Seq<u8> {
    be16(tag) + be16(3) + be32(1) + be16(value) + seq![0u8, 0u8]
}

/// Everything before the pixel block: header, the tag directory and the two
/// out-of-line resolution values. `byte_count` is the length in bytes of the
/// pixel block (StripByteCounts).
pub open spec fn tiff_prefix_bytes(width: int, height: int, byte_count: int) -> Seq<u8> {
    seq![0x4du8, 0x4du8] + be16(42) + be32(8)  // big-endian header, IFD at 8
     + be16(13)  // entry count
     + ifd_entry_u32(256, 4, width)  // ImageWidth, LONG
     + ifd_entry_u32(257, 4, height)  // ImageLength, LONG
     + ifd_entry_short(258, 16)  // BitsPerSample
     + ifd_entry_short(259, 1)  // Compression: none
     + ifd_entry_short(262, 1)  // PhotometricInterpretation: black is zero
     + ifd_entry_u32(273, 4, 186)  // StripOffsets: the pixel block
     + ifd_entry_short(277, 1)  // SamplesPerPixel
     + ifd_entry_u32(278, 4, height)  // RowsPerStrip: a single strip
     + ifd_entry_u32(279, 4, byte_count)  // StripByteCounts
     + ifd_entry_u32(282, 5, 170)  // XResolution, RATIONAL at 170
     + ifd_entry_u32(283, 5, 178)  // YResolution, RATIONAL at 178
     + ifd_entry_short(296, 1)  // ResolutionUnit: none
     + ifd_entry_short(339, 2)  // SampleFormat: signed integer
     + be32(0)  // no further IFD
     + be32(1) + be32(1)  // XResolution = 1/1
     + be32(1) + be32(1)  // YResolution = 1/1
}

/// The complete big-endian baseline TIFF for one grayscale slice.
pub open spec fn tiff_big_endian_bytes(samples: Seq<i16>, width: int, height: int) -> Seq<u8> {
    tiff_prefix_bytes(width, height, 2 * samples.len() as int) + pixel_bytes(samples)
}

/// The prefix always occupies exactly the 186 bytes before the pixel block.
pub proof fn lemma_tiff_prefix_len(width: int, height: int, byte_count: int)
    ensures
        tiff_prefix_bytes(width, height, byte_count).len() == 186,
{
}

/// What a standards-compliant TIFF reader recovers from the hand-assembled
/// big-endian file: the strip it finds at offset 186, decoded as big-endian
/// signed 16-bit words, is exactly the encoded sample sequence.
pub proof fn lemma_tiff_big_endian_round_trip(samples: Seq<i16>, width: int, height: int)
    ensures
        decoded_pixels(
            tiff_big_endian_bytes(samples, width, height).subrange(
                186,
                186 + 2 * samples.len() as int,
            ),
        ) == samples,
{
    lemma_tiff_prefix_len(width, height, 2 * samples.len() as int);
    assert(tiff_big_endian_bytes(samples, width, height).subrange(
        186,
        186 + 2 * samples.len() as int,
    ) =~= pixel_bytes(samples));
    lemma_pixel_bytes_round_trip(samples);
}

fn push_ifd_entry_u32(out: &mut Vec<u8>, tag: u16, typ: u16, value: u32)
    ensures
        final(out)@ == old(out)@ + ifd_entry_u32(tag as int, typ as int, value as int),
{
    push_u16_be(out, tag);
    push_u16_be(out, typ);
    push_u32_be(out, 1);
    push_u32_be(out, value);
    proof {
        assert(out@ =~= old(out)@ + ifd_entry_u32(tag as int, typ as int, value as int));
    }
}

fn push_ifd_entry_short(out: &mut Vec<u8>, tag: u16, value: u16)
    ensures
        final(out)@ == old(out)@ + ifd_entry_short(tag as int, value as int),
{
    push_u16_be(out, tag);
    push_u16_be(out, 3);
    push_u32_be(out, 1);
    push_u16_be(out, value);
    out.push(0);
    out.push(0);
    proof {
        assert(out@ =~= old(out)@ + ifd_entry_short(tag as int, value as int));
    }
}

/// Serializes one slice as a self-contained baseline TIFF in explicit
/// big-endian byte order, independent of the host's byte order: a
/// hand-assembled header and tag directory followed by the byte-swapped
/// samples as a single uncompressed strip. Rejects an empty image, as the
/// generic encoder does; never overflows, because the strip size is bounded
/// by the 32-bit byte counts the format prescribes.
pub fn encode_tiff_big_endian(data: &[i16], width: u32, height: u32) -> (r: Result<
    Vec<u8>,
    ExportError,
>)
    requires
        data@.len() == width * height,
        2 * width * height <= u32::MAX,
    ensures
        r is Ok <==> width > 0 && height > 0,
        r matches Ok(bytes) ==> bytes@ == tiff_big_endian_bytes(
            data@,
            width as int,
            height as int,
        ),
        r matches Err(e) ==> e == ExportError::Encoding,
{
    if width == 0 || height == 0 {
        return Err(ExportError::Encoding);
    }
    proof {
        assert(2 * (width as int) * (height as int) == 2 * ((width as int) * (height as int)))
            by (nonlinear_arith);
    }
    let byte_count: u32 = 2 * (data.len() as u32);
    let mut out: Vec<u8> = Vec::new();
    out.push(0x4d);
    out.push(0x4d);
    push_u16_be(&mut out, 42);
    push_u32_be(&mut out, 8);
    push_u16_be(&mut out, 13);
    push_ifd_entry_u32(&mut out, 256, 4, width);
    push_ifd_entry_u32(&mut out, 257, 4, height);
    push_ifd_entry_short(&mut out, 258, 16);
    push_ifd_entry_short(&mut out, 259, 1);
    push_ifd_entry_short(&mut out, 262, 1);
    push_ifd_entry_u32(&mut out, 273, 4, 186);
    push_ifd_entry_short(&mut out, 277, 1);
    push_ifd_entry_u32(&mut out, 278, 4, height);
    push_ifd_entry_u32(&mut out, 279, 4, byte_count);
    push_ifd_entry_u32(&mut out, 282, 5, 170);
    push_ifd_entry_u32(&mut out, 283, 5, 178);
    push_ifd_entry_short(&mut out, 296, 1);
    push_ifd_entry_short(&mut out, 339, 2);
    push_u32_be(&mut out, 0);
    push_u32_be(&mut out, 1);
    push_u32_be(&mut out, 1);
    push_u32_be(&mut out, 1);
    push_u32_be(&mut out, 1);
    proof {
        assert(out@ =~= tiff_prefix_bytes(width as int, height as int, byte_count as int));
    }
    push_pixels_be(&mut out, data);
    Ok(out)
}

/// Serializes one slice as a baseline grayscale TIFF in the host's byte
/// order.
///
/// Relies on the `tiff` crate's `TiffEncoder::write_image` with the
/// `GrayI16` color type: it writes signed 16-bit, one-sample-per-pixel
/// image data to the in-memory buffer in the byte order of the running
/// process, returns an `InvalidDimensions` error when `width` or `height`
/// is zero, and an error when the data holds fewer than `width * height`
/// samples. Because the output follows the host's byte order, no statement
/// relates its bytes to the samples here.
#[verifier::external_body]
pub fn encode_tiff_native(data: &[i16], width: u32, height: u32) -> (r: Result<
    Vec<u8>,
    ExportError,
>)
    ensures
        width == 0 || height == 0 ==> r is Err,
        data@.len() < width * height ==> r is Err,
        r matches Err(e) ==> e == ExportError::Encoding,
{
    let mut cursor = std::io::Cursor::new(Vec::new());
    let result = tiff::encoder::TiffEncoder::new(&mut cursor).and_then(|mut encoder| {
        encoder.write_image::<tiff::encoder::colortype::GrayI16>(width, height, data)
    });
    match result {
        Ok(()) => Ok(cursor.into_inner()),
        Err(_) => Err(ExportError::Encoding),
    }
}

} // verus!
