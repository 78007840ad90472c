//! Recognising raster image formats by their leading bytes.

use vstd::prelude::*;

verus! {

/// The raster formats an avatar may arrive in.
#[derive(Clone, Copy, Debug, PartialEq, Eq, Structural)]
pub enum ImageFormat {
    Png,
    Jpeg,
}

/// The file extension that goes with `format`.
pub open spec fn extension_text(format: ImageFormat) -> Seq<char> {
    match format {
        ImageFormat::Png => "png"@,
        ImageFormat::Jpeg => "jpg"@,
    }
}

impl ImageFormat {
    /// The file extension under which an image of this format is stored.
    pub fn extension(&self) -> (text: &'static str)
        ensures
            text@ == extension_text(*self),
    {
        match self {
            ImageFormat::Png => "png",
            ImageFormat::Jpeg => "jpg",
        }
    }
}

/// The eight bytes every PNG file starts with.
pub open spec fn png_signature() -> Seq<u8> {
    seq![0x89u8, 0x50u8, 0x4Eu8, 0x47u8, 0x0Du8, 0x0Au8, 0x1Au8, 0x0Au8]
}

/// The three bytes every JPEG file starts with.
pub open spec fn jpeg_signature() -> Seq<u8> {
    seq![0xFFu8, 0xD8u8, 0xFFu8]
}

/// Whether `bytes` begins with `prefix`.
pub open spec fn starts_with(bytes: Seq<u8>, prefix: Seq<u8>) -> bool {
    prefix.len() <= bytes.len() && bytes.subrange(0, prefix.len() as int) == prefix
}

/// The format that the leading bytes of `bytes` announce, if any.
pub open spec fn sniff(bytes: Seq<u8>) -> Option<ImageFormat> {
    if starts_with(bytes, png_signature()) {
        Some(ImageFormat::Png)
    } else if starts_with(bytes, jpeg_signature()) {
        Some(ImageFormat::Jpeg)
    } else {
        None
    }
}

/// Whether `bytes` begins with `prefix`.
pub fn has_prefix(bytes: &[u8], prefix: &[u8]) -> (found: bool)
    ensures
        found == starts_with(bytes@, prefix@),
{
    if bytes.len() < prefix.len() {
        return false;
    }
    let mut index: usize = 0;
    while index < prefix.len()
        invariant
            index <= prefix.len() <= bytes.len(),
            bytes@.subrange(0, index as int) == prefix@.subrange(0, index as int),
        decreases prefix.len() - index,
    {
        if bytes[index] != prefix[index] {
            return false;
        }
        index = index + 1;
    }
    assert(prefix@.subrange(0, prefix.len() as int) =~= prefix@);
    true
}

/// Classifies a byte buffer by its signature bytes: a PNG, a JPEG, or neither.
/// Only the leading bytes are read.
pub fn classify(bytes: &[u8]) -> (format: Option<ImageFormat>)
    ensures
        format == sniff(bytes@),
{
    let png: [u8; 8] = [0x89, 0x50, 0x4E, 0x47, 0x0D, 0x0A, 0x1A, 0x0A];
    let jpeg: [u8; 3] = [0xFF, 0xD8, 0xFF];
    if has_prefix(bytes, png.as_slice()) {
        Some(ImageFormat::Png)
    } else if has_prefix(bytes, jpeg.as_slice()) {
        Some(ImageFormat::Jpeg)
    } else {
        None
    }
}

/// The lower-case hexadecimal digit of a value below sixteen; `f` for any
/// other value.
pub open spec fn hex_digit_text(value: u8) -> Seq<char> {
    match value {
        0 => "0"@,
        1 => "1"@,
        2 => "2"@,
        3 => "3"@,
        4 => "4"@,
        5 => "5"@,
        6 => "6"@,
        7 => "7"@,
        8 => "8"@,
        9 => "9"@,
        10 => "a"@,
        11 => "b"@,
        12 => "c"@,
        13 => "d"@,
        14 => "e"@,
        _ => "f"@,
    }
}

/// A byte as two hexadecimal digits, the high one first.
pub open spec fn hex_pair_text(byte: u8) -> Seq<char> {
    hex_digit_text(byte / 16) + hex_digit_text(byte % 16)
}

/// Bytes as pairs of hexadecimal digits with one space between two pairs.
pub open spec fn hex_text(bytes: Seq<u8>) -> Seq<char>
    decreases bytes.len(),
{
    if bytes.len() == 0 {
        Seq::empty()
    } else if bytes.len() == 1 {
        hex_pair_text(bytes[0])
    } else {
        hex_text(bytes.drop_last()) + " "@ + hex_pair_text(bytes.last())
    }
}

/// How many bytes of a buffer a diagnostic shows.
pub const PREVIEW_LENGTH: usize = 20;

/// The leading bytes of a buffer, at most twenty, in hexadecimal.
pub open spec fn hex_preview_text(bytes: Seq<u8>) -> Seq<char> {
    if bytes.len() <= PREVIEW_LENGTH {
        hex_text(bytes)
    } else {
        hex_text(bytes.subrange(0, PREVIEW_LENGTH as int))
    }
}

/// The lower-case hexadecimal digit of a value below sixteen; `f` for any
/// other value.
fn hex_digit(value: u8) -> (digit: &'static str)
    ensures
        digit@ == hex_digit_text(value),
{
    match value {
        0 => "0",
        1 => "1",
        2 => "2",
        3 => "3",
        4 => "4",
        5 => "5",
        6 => "6",
        7 => "7",
        8 => "8",
        9 => "9",
        10 => "a",
        11 => "b",
        12 => "c",
        13 => "d",
        14 => "e",
        _ => "f",
    }
}

/// The leading bytes of a buffer, at most twenty, in hexadecimal: what a
/// diagnostic shows of content that was not recognized.
pub fn hex_preview(bytes: &[u8]) -> (text: String)
    ensures
        text@ == hex_preview_text(bytes@),
{
    let shown: usize = if bytes.len() <= PREVIEW_LENGTH {
        bytes.len()
    } else {
        PREVIEW_LENGTH
    };
    let mut text = String::new();
    let mut index: usize = 0;
    while index < shown
        invariant
            index <= shown <= bytes.len(),
            text@ == hex_text(bytes@.subrange(0, index as int)),
        decreases shown - index,
    {
        let byte = bytes[index];
        assert(bytes@.subrange(0, index + 1).drop_last() =~= bytes@.subrange(0, index as int));
        if index > 0 {
            text.append(" ");
        }
        text.append(hex_digit(byte / 16));
        text.append(hex_digit(byte % 16));
        index = index + 1;
    }
    assert(bytes@.subrange(0, bytes.len() as int) =~= bytes@);
    text
}

/// The hexadecimal text of a buffer has two digits for each byte and one space
/// between two bytes.
pub proof fn lemma_hex_text_length(bytes: Seq<u8>)
    ensures
        hex_text(bytes).len() == if bytes.len() == 0 {
            0
        } else {
            3 * bytes.len() - 1
        },
    decreases bytes.len(),
{
    reveal_strlit("0");
    reveal_strlit("1");
    reveal_strlit("2");
    reveal_strlit("3");
    reveal_strlit("4");
    reveal_strlit("5");
    reveal_strlit("6");
    reveal_strlit("7");
    reveal_strlit("8");
    reveal_strlit("9");
    reveal_strlit("a");
    reveal_strlit("b");
    reveal_strlit("c");
    reveal_strlit("d");
    reveal_strlit("e");
    reveal_strlit("f");
    reveal_strlit(" ");
    if bytes.len() > 1 {
        lemma_hex_text_length(bytes.drop_last());
    }
}

/// Every buffer that starts with the PNG signature is a PNG.
pub proof fn lemma_png_is_recognized(bytes: Seq<u8>)
    requires
        starts_with(bytes, png_signature()),
    ensures
        sniff(bytes) == Some(ImageFormat::Png),
{
}

/// Every buffer that starts with the JPEG prefix is a JPEG: it cannot start
/// with the PNG signature as well.
pub proof fn lemma_jpeg_is_recognized(bytes: Seq<u8>)
    requires
        starts_with(bytes, jpeg_signature()),
    ensures
        sniff(bytes) == Some(ImageFormat::Jpeg),
{
    lemma_signatures_exclude_each_other(bytes);
}

/// A buffer that starts with neither signature is of no known format.
pub proof fn lemma_other_is_unrecognized(bytes: Seq<u8>)
    requires
        !starts_with(bytes, png_signature()),
        !starts_with(bytes, jpeg_signature()),
    ensures
        sniff(bytes) is None,
{
}

/// A buffer shorter than the shortest signature, the empty one among them, is
/// of no known format.
pub proof fn lemma_short_is_unrecognized(bytes: Seq<u8>)
    requires
        bytes.len() < 3,
    ensures
        sniff(bytes) is None,
{
}

/// No buffer starts with both signatures: they differ in their first byte.
pub proof fn lemma_signatures_exclude_each_other(bytes: Seq<u8>)
    ensures
        !(starts_with(bytes, png_signature()) && starts_with(bytes, jpeg_signature())),
{
}

/// Only the leading bytes count: what follows the signature changes nothing.
pub proof fn lemma_sniff_reads_the_prefix(bytes: Seq<u8>, more: Seq<u8>)
    requires
        sniff(bytes) is Some,
    ensures
        sniff(bytes + more) == sniff(bytes),
{
    lemma_signatures_exclude_each_other(bytes);
    if starts_with(bytes, png_signature()) {
        assert((bytes + more).subrange(0, 8) =~= bytes.subrange(0, 8));
    } else {
        assert((bytes + more).subrange(0, 3) =~= bytes.subrange(0, 3));
        lemma_signatures_exclude_each_other(bytes + more);
    }
}

} // verus!
