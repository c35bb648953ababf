//! The BMP file header and DIB header, their decoders, and what decoding
//! means as functions of the bytes.
use vstd::prelude::*;
use crate::source::{
    ByteSource, le_i32_at, le_u16_at, le_u16_bytes, le_u32_at, le_u32_bytes,
    lemma_le_u16_round_trip, lemma_le_u32_round_trip,
};

verus! {

/// Length of the magic signature.
pub const SIGNATURE_LEN: usize = 2;

/// Length of the file-header fields that follow the signature.
pub const FILE_HEADER_FIELDS_LEN: usize = 12;

/// Length of the whole file header, signature included.
pub const FILE_HEADER_LEN: usize = 14;

/// Length of the standard Windows info header, the smallest DIB layout read.
pub const DIB_BASE_LEN: u32 = 40;

/// Why a header could not be decoded.
#[derive(Clone, Copy, Debug, PartialEq, Eq)]
pub enum BmpError {
    /// Fewer bytes remain than the field or header needs.
    UnexpectedEof,
    /// The first two bytes are not `BM`; they are carried for diagnostics.
    InvalidSignature([u8; 2]),
    /// The DIB header declares a size that matches no known layout.
    UnsupportedDibVariant(u32),
}

/// The fixed 14-byte header at the start of a BMP file.
#[derive(Clone, Copy, Debug, PartialEq, Eq)]
pub struct BMPFileHeader {
    /// The magic bytes, `B` and `M`.
    pub signature: [u8; 2],
    /// Total size of the file in bytes.
    pub size: u32,
    /// Application-defined, not validated.
    pub reserved1: u16,
    /// Application-defined, not validated.
    pub reserved2: u16,
    /// Offset from the start of the file to the pixel data.
    pub offset: u32,
}

/// The DIB (bitmap info) header that follows the file header.
#[derive(Clone, Copy, Debug, PartialEq, Eq)]
pub struct BMPDIBHeader {
    /// Declared size of this header in bytes; selects the layout.
    pub size: u32,
    /// Width of the image in pixels.
    pub img_width: i32,
    /// Height of the image in pixels; negative means rows run top-down.
    pub img_height: i32,
    /// Number of colour planes.
    pub planes: u16,
    /// Bits per pixel.
    pub bits_per_px: u16,
    /// Compression method, stored raw.
    pub compression_type: u32,
    /// Size of the raw pixel data in bytes.
    pub img_size: u32,
    /// Horizontal resolution in pixels per metre.
    pub x_resolution: i32,
    /// Vertical resolution in pixels per metre.
    pub y_resolution: i32,
    /// Number of colours in the colour table.
    pub num_colors: u32,
    /// Number of important colours.
    pub imp_colors: u32,
}

/// A decoded BMP file: its file header and, once decoded, its DIB header.
#[derive(Clone, Copy, Debug, PartialEq, Eq)]
pub struct BMPFile {
    pub header: BMPFileHeader,
    pub dib_header: Option<BMPDIBHeader>,
}

/// The magic signature `BM`.
pub open spec fn bm() -> [u8; 2] {
    [0x42u8, 0x4Du8]
}

pub open spec fn is_bm(s: Seq<u8>) -> bool {
    s.len() >= 2 && s[0] == 0x42u8 && s[1] == 0x4Du8
}

/// Outcome of checking the signature at the start of `s`.
pub open spec fn signature_of(s: Seq<u8>) -> Result<[u8; 2], BmpError> {
    if s.len() < 2 {
        Err(BmpError::UnexpectedEof)
    } else if is_bm(s) {
        Ok(bm())
    } else {
        Err(BmpError::InvalidSignature([s[0], s[1]]))
    }
}

/// Outcome of decoding the twelve file-header field bytes at the start of
/// `s`, behind an already checked `signature`.
pub open spec fn file_header_fields_of(s: Seq<u8>, signature: [u8; 2]) -> Result<BMPFileHeader, BmpError> {
    if s.len() < 12 {
        Err(BmpError::UnexpectedEof)
    } else {
        Ok(BMPFileHeader {
            signature,
            size: le_u32_at(s, 0) as u32,
            reserved1: le_u16_at(s, 4) as u16,
            reserved2: le_u16_at(s, 6) as u16,
            offset: le_u32_at(s, 8) as u32,
        })
    }
}

/// Outcome of decoding the whole file header, signature first.
pub open spec fn file_header_of(s: Seq<u8>) -> Result<BMPFileHeader, BmpError> {
    match signature_of(s) {
        Err(e) => Err(e),
        Ok(sig) => file_header_fields_of(s.skip(2), sig),
    }
}

/// The DIB header sizes whose layout starts with the standard info header:
/// info (40), its two extensions (52, 56), and versions 4 (108) and 5 (124).
pub open spec fn is_known_dib_size(n: u32) -> bool {
    n == 40 || n == 52 || n == 56 || n == 108 || n == 124
}

/// Outcome of decoding the DIB header at the start of `s`.
pub open spec fn dib_header_of(s: Seq<u8>) -> Result<BMPDIBHeader, BmpError> {
    if s.len() < 4 {
        Err(BmpError::UnexpectedEof)
    } else if !is_known_dib_size(le_u32_at(s, 0) as u32) {
        Err(BmpError::UnsupportedDibVariant(le_u32_at(s, 0) as u32))
    } else if s.len() < le_u32_at(s, 0) {
        Err(BmpError::UnexpectedEof)
    } else {
        Ok(BMPDIBHeader {
            size: le_u32_at(s, 0) as u32,
            img_width: le_i32_at(s, 4) as i32,
            img_height: le_i32_at(s, 8) as i32,
            planes: le_u16_at(s, 12) as u16,
            bits_per_px: le_u16_at(s, 14) as u16,
            compression_type: le_u32_at(s, 16) as u32,
            img_size: le_u32_at(s, 20) as u32,
            x_resolution: le_i32_at(s, 24) as i32,
            y_resolution: le_i32_at(s, 28) as i32,
            num_colors: le_u32_at(s, 32) as u32,
            imp_colors: le_u32_at(s, 36) as u32,
        })
    }
}

/// Outcome of decoding the file-header fields behind an already checked
/// `signature`, as a file whose DIB header is not decoded yet.
pub open spec fn file_fields_of(s: Seq<u8>, signature: [u8; 2]) -> Result<BMPFile, BmpError> {
    match file_header_fields_of(s, signature) {
        Err(e) => Err(e),
        Ok(header) => Ok(BMPFile { header, dib_header: None }),
    }
}

/// Outcome of decoding a whole BMP file from `s`: signature, file header,
/// DIB header.
pub open spec fn bmp_file_of(s: Seq<u8>) -> Result<BMPFile, BmpError> {
    match signature_of(s) {
        Err(e) => Err(e),
        Ok(sig) => match file_header_fields_of(s.skip(2), sig) {
            Err(e) => Err(e),
            Ok(header) => match dib_header_of(s.skip(14)) {
                Err(e) => Err(e),
                Ok(d) => Ok(BMPFile { header, dib_header: Some(d) }),
            },
        },
    }
}

/// The 14 bytes that encode `h`: signature, size, the two reserved fields
/// and the offset, little-endian.
pub open spec fn file_header_bytes(h: BMPFileHeader) -> Seq<u8> {
    h.signature@ + le_u32_bytes(h.size) + le_u16_bytes(h.reserved1) + le_u16_bytes(h.reserved2)
        + le_u32_bytes(h.offset)
}

/// Number of bytes that a successful decode of `f` consumed.
pub open spec fn consumed(f: BMPFile) -> nat {
    match f.dib_header {
        Some(d) => (FILE_HEADER_LEN + d.size) as nat,
        None => FILE_HEADER_LEN as nat,
    }
}

/// Whether `n` is a DIB header size whose layout is decoded.
pub fn known_dib_size(n: u32) -> (r: bool)
    ensures
        r == is_known_dib_size(n),
{
    n == 40 || n == 52 || n == 56 || n == 108 || n == 124
}

impl BMPFileHeader {
    /// Decodes the twelve file-header field bytes that follow a checked
    /// signature: size, two reserved fields and the pixel-data offset, all
    /// little-endian. Consumes nothing when fewer than twelve bytes remain.
    pub fn parse_fields(source: &mut ByteSource, signature: [u8; 2]) -> (r: Result<BMPFileHeader, BmpError>)
        requires
            old(source).wf(),
        ensures
            r == file_header_fields_of(old(source).remaining(), signature),
            r is Ok ==> final(source).advanced_from(old(source), 12),
            r is Err ==> final(source).advanced_from(old(source), 0),
    {
        if !source.has(FILE_HEADER_FIELDS_LEN) {
            return Err(BmpError::UnexpectedEof);
        }
        let size = source.take_u32_le();
        let reserved1 = source.take_u16_le();
        let reserved2 = source.take_u16_le();
        let offset = source.take_u32_le();
        Ok(BMPFileHeader { signature, size, reserved1, reserved2, offset })
    }

    /// Decodes the whole 14-byte file header: the signature, then the fields.
    pub fn decode(source: &mut ByteSource) -> (r: Result<BMPFileHeader, BmpError>)
        requires
            old(source).wf(),
        ensures
            r == file_header_of(old(source).remaining()),
            r is Ok ==> final(source).advanced_from(old(source), 14),
            final(source).wf(),
            final(source).data() == old(source).data(),
    {
        match BMPFile::validate_file_signature(source) {
            Ok(signature) => BMPFileHeader::parse_fields(source, signature),
            Err(e) => Err(e),
        }
    }
}

impl BMPDIBHeader {
    /// Decodes the DIB header: its declared size, then the fields of the
    /// standard info header; the bytes of a longer layout are passed over.
    /// On success the whole declared size has been consumed.
    pub fn parse(source: &mut ByteSource) -> (r: Result<BMPDIBHeader, BmpError>)
        requires
            old(source).wf(),
        ensures
            r == dib_header_of(old(source).remaining()),
            r matches Ok(d) ==> final(source).advanced_from(old(source), d.size as nat),
            r is Err ==> final(source).advanced_from(
                old(source),
                if old(source).remaining().len() < 4 { 0 } else { 4 },
            ),
    {
        if !source.has(4) {
            return Err(BmpError::UnexpectedEof);
        }
        let size = source.take_u32_le();
        if !known_dib_size(size) {
            return Err(BmpError::UnsupportedDibVariant(size));
        }
        if !source.has((size - 4) as usize) {
            return Err(BmpError::UnexpectedEof);
        }
        let img_width = source.take_i32_le();
        let img_height = source.take_i32_le();
        let planes = source.take_u16_le();
        let bits_per_px = source.take_u16_le();
        let compression_type = source.take_u32_le();
        let img_size = source.take_u32_le();
        let x_resolution = source.take_i32_le();
        let y_resolution = source.take_i32_le();
        let num_colors = source.take_u32_le();
        let imp_colors = source.take_u32_le();
        source.skip((size - DIB_BASE_LEN) as usize);
        Ok(BMPDIBHeader {
            size,
            img_width,
            img_height,
            planes,
            bits_per_px,
            compression_type,
            img_size,
            x_resolution,
            y_resolution,
            num_colors,
            imp_colors,
        })
    }
}

impl BMPFile {
    /// Reads two bytes and checks that they are the signature `BM`. The
    /// cursor moves over both bytes whatever they hold.
    pub fn validate_file_signature(source: &mut ByteSource) -> (r: Result<[u8; 2], BmpError>)
        requires
            old(source).wf(),
        ensures
            r == signature_of(old(source).remaining()),
            final(source).advanced_from(
                old(source),
                if old(source).remaining().len() < 2 { 0 } else { 2 },
            ),
    {
        if !source.has(SIGNATURE_LEN) {
            return Err(BmpError::UnexpectedEof);
        }
        let b0 = source.take_u8();
        let b1 = source.take_u8();
        if b0 == 0x42 && b1 == 0x4D {
            Ok([b0, b1])
        } else {
            Err(BmpError::InvalidSignature([b0, b1]))
        }
    }

    /// Decodes the twelve file-header field bytes behind a checked
    /// signature. The DIB header is left undecoded. Fails only when fewer
    /// than twelve bytes remain, and then consumes nothing.
    pub fn parse(source: &mut ByteSource, signature: [u8; 2]) -> (r: Result<BMPFile, BmpError>)
        requires
            old(source).wf(),
        ensures
            r == file_fields_of(old(source).remaining(), signature),
            r is Ok <==> old(source).remaining().len() >= 12,
            r is Ok ==> final(source).advanced_from(old(source), 12),
            r is Err ==> final(source).advanced_from(old(source), 0),
    {
        match BMPFileHeader::parse_fields(source, signature) {
            Ok(header) => Ok(BMPFile { header, dib_header: None }),
            Err(e) => Err(e),
        }
    }

    /// Decodes a BMP file from the start of `source`: the signature, the
    /// file header, then the DIB header. Stops at the first error; a rejected
    /// signature leaves the cursor two bytes on, past no header field.
    pub fn new(source: &mut ByteSource) -> (r: Result<BMPFile, BmpError>)
        requires
            old(source).wf(),
        ensures
            r == bmp_file_of(old(source).remaining()),
            r matches Ok(f) ==> f.dib_header is Some,
            r matches Ok(f) ==> final(source).advanced_from(old(source), consumed(f)),
            r matches Err(BmpError::InvalidSignature(_)) ==> final(source).advanced_from(old(source), 2),
            final(source).wf(),
            final(source).data() == old(source).data(),
    {
        let signature = match BMPFile::validate_file_signature(source) {
            Ok(signature) => signature,
            Err(e) => return Err(e),
        };
        let file = match BMPFile::parse(source, signature) {
            Ok(file) => file,
            Err(e) => return Err(e),
        };
        proof {
            assert(source.remaining() =~= old(source).remaining().skip(14));
        }
        match BMPDIBHeader::parse(source) {
            Ok(d) => Ok(BMPFile { header: file.header, dib_header: Some(d) }),
            Err(e) => Err(e),
        }
    }
}

/// Bytes that do not start with `BM` are rejected with `InvalidSignature`
/// carrying the first two bytes, before any header field is decoded.
pub proof fn lemma_bad_signature_rejected(s: Seq<u8>)
    requires
        s.len() >= 2,
        !is_bm(s),
    ensures
        signature_of(s) == Err::<[u8; 2], BmpError>(BmpError::InvalidSignature([s[0], s[1]])),
        file_header_of(s) == Err::<BMPFileHeader, BmpError>(BmpError::InvalidSignature([s[0], s[1]])),
        bmp_file_of(s) == Err::<BMPFile, BmpError>(BmpError::InvalidSignature([s[0], s[1]])),
{
}

/// A source with a valid signature but fewer than 14 bytes fails with
/// `UnexpectedEof`.
pub proof fn lemma_short_source_eof(s: Seq<u8>)
    requires
        is_bm(s),
        s.len() < 14,
    ensures
        file_header_of(s) == Err::<BMPFileHeader, BmpError>(BmpError::UnexpectedEof),
        bmp_file_of(s) == Err::<BMPFile, BmpError>(BmpError::UnexpectedEof),
{
}

/// The file header decoded from a source depends on its first 14 bytes
/// alone: two sources that agree on them decode to the same header.
pub proof fn lemma_file_header_deterministic(a: Seq<u8>, b: Seq<u8>)
    requires
        a.len() >= 14,
        b.len() >= 14,
        a.take(14) == b.take(14),
    ensures
        file_header_of(a) == file_header_of(b),
{
    assert forall|i: int| 0 <= i < 14 implies a[i] == b[i] by {
        assert(a.take(14)[i] == a[i]);
        assert(b.take(14)[i] == b[i]);
    }
}

/// Encoding a header with the `BM` signature and decoding the bytes,
/// whatever follows them, gives the header back.
pub proof fn lemma_file_header_round_trip(h: BMPFileHeader, rest: Seq<u8>)
    requires
        h.signature == bm(),
    ensures
        file_header_of(file_header_bytes(h) + rest) == Ok::<BMPFileHeader, BmpError>(h),
        file_fields_of(file_header_bytes(h).skip(2) + rest, bm()) == Ok::<BMPFile, BmpError>(
            BMPFile { header: h, dib_header: None },
        ),
{
    let s = file_header_bytes(h) + rest;
    let f = s.skip(2);
    lemma_le_u32_round_trip(h.size);
    lemma_le_u16_round_trip(h.reserved1);
    lemma_le_u16_round_trip(h.reserved2);
    lemma_le_u32_round_trip(h.offset);
    assert(f.take(4) =~= le_u32_bytes(h.size));
    assert(f.subrange(4, 6) =~= le_u16_bytes(h.reserved1));
    assert(f.subrange(6, 8) =~= le_u16_bytes(h.reserved2));
    assert(f.subrange(8, 12) =~= le_u32_bytes(h.offset));
    assert(h.signature@ == seq![0x42u8, 0x4Du8]);
    assert(s[0] == 0x42u8 && s[1] == 0x4Du8);
    assert(h.signature == [s[0], s[1]]);
    assert(file_header_bytes(h).skip(2) + rest =~= f);
}

/// Decoding is a function of the bytes: two sources positioned over the
/// same bytes decode to equal results, so parsing one buffer twice gives
/// equal results.
pub proof fn lemma_parse_idempotent(a: ByteSource, b: ByteSource)
    requires
        a.wf(),
        b.wf(),
        a.data() == b.data(),
        a.pos() == b.pos(),
    ensures
        bmp_file_of(a.remaining()) == bmp_file_of(b.remaining()),
        file_header_of(a.remaining()) == file_header_of(b.remaining()),
{
}

} // verus!
