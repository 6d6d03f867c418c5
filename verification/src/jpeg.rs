//! A look into a JPEG file before it is decoded.
//!
//! A JPEG file is a run of segments, each led by a marker: a byte `0xFF` and
//! a code. The first frame header among them says how the picture is coded.
//! Pictures in the lossless coding are not taken as textures: the decoder in
//! use cannot be relied on to come back from every such file, so they are
//! told apart here and never handed to it.
use vstd::prelude::*;

verus! {

/// The code of the marker that opens a file.
pub const START_OF_IMAGE: u8 = 0xD8;

/// The code of the frame header of the lossless coding with Huffman codes.
pub const LOSSLESS_FRAME: u8 = 0xC3;

/// The code is that of a frame header, of whatever coding.
pub open spec fn is_frame(code: u8) -> bool {
    0xC0 <= code <= 0xCF && code != 0xC4 && code != 0xC8 && code != 0xCC
}

/// The code is that of a segment that may stand before the first frame
/// header: tables, a restart interval, a comment or application data.
pub open spec fn is_table_or_note(code: u8) -> bool {
    code == 0xC4 || code == 0xDB || code == 0xDD || code == 0xFE || 0xE0 <= code <= 0xEF
}

/// Where the code of the next marker stands, looking from `at` on: at the
/// first byte after a `0xFF` that is neither `0x00` nor `0xFF` itself.
/// Bytes between segments and fill bytes before a code are passed over.
pub open spec fn marker_from(bytes: Seq<u8>, at: int) -> Option<int>
    decreases bytes.len() - at,
{
    if at < 1 || at >= bytes.len() {
        None
    } else if bytes[at - 1] == 0xFF && bytes[at] != 0x00 && bytes[at] != 0xFF {
        Some(at)
    } else {
        marker_from(bytes, at + 1)
    }
}

/// The length that the segment whose code stands at `code_at` gives for
/// itself, its two length bytes counted in; nothing where the file ends
/// before the segment does, or the length is less than its own two bytes.
pub open spec fn segment_length(bytes: Seq<u8>, code_at: int) -> Option<int> {
    if 0 <= code_at && code_at + 2 < bytes.len() {
        let length = bytes[code_at + 1] * 256 + bytes[code_at + 2];
        if 2 <= length && code_at + 1 + length <= bytes.len() {
            Some(length)
        } else {
            None
        }
    } else {
        None
    }
}

/// The code of the first frame header that is met when the segments are
/// gone through from `from` on, each segment before it being passed over by
/// its length. Nothing where the file ends first, or another marker than
/// those that may stand before a frame header comes first.
pub open spec fn first_frame_from(bytes: Seq<u8>, from: int) -> Option<u8>
    decreases bytes.len() - from,
{
    if from < 0 {
        None
    } else {
        match marker_from(bytes, from + 1) {
            Some(code_at) => {
                let code = bytes[code_at];
                if is_frame(code) {
                    Some(code)
                } else if is_table_or_note(code) {
                    match segment_length(bytes, code_at) {
                        Some(length) => if code_at + 1 + length > from {
                            first_frame_from(bytes, code_at + 1 + length)
                        } else {
                            None
                        },
                        None => None,
                    }
                } else {
                    None
                }
            },
            None => None,
        }
    }
}

/// The code of the first frame header of a JPEG file; nothing where the
/// bytes do not begin as a JPEG file does, or hold no frame header where
/// one is looked for.
pub open spec fn first_frame(bytes: Seq<u8>) -> Option<u8> {
    if bytes.len() >= 2 && bytes[0] == 0xFF && bytes[1] == START_OF_IMAGE {
        first_frame_from(bytes, 2)
    } else {
        None
    }
}

/// The bytes are a JPEG file whose picture is in the lossless coding.
pub open spec fn lossless_jpeg(bytes: Seq<u8>) -> bool {
    first_frame(bytes) == Some(LOSSLESS_FRAME)
}

/// A marker that is found from `at` on stands at `at` or after it, after a
/// byte `0xFF`, and within the file.
pub proof fn lemma_marker_from_bounds(bytes: Seq<u8>, at: int)
    ensures
        marker_from(bytes, at) matches Some(code_at) ==> at <= code_at < bytes.len() && 1
            <= code_at,
    decreases bytes.len() - at,
{
    if 1 <= at < bytes.len() && !(bytes[at - 1] == 0xFF && bytes[at] != 0x00 && bytes[at]
        != 0xFF) {
        lemma_marker_from_bounds(bytes, at + 1);
    }
}

/// Where the code of the next marker stands, looking at the bytes after
/// the place `from`.
pub fn next_marker(bytes: &Vec<u8>, from: usize) -> (found: Option<usize>)
    ensures
        match found {
            Some(code_at) => marker_from(bytes@, from + 1) == Some(code_at as int),
            None => marker_from(bytes@, from + 1) is None,
        },
{
    if from >= bytes.len() {
        return None;
    }
    let mut at: usize = from + 1;
    while at < bytes.len()
        invariant
            1 <= at <= bytes.len(),
            marker_from(bytes@, at as int) == marker_from(bytes@, from + 1),
        decreases bytes.len() - at,
    {
        if bytes[at - 1] == 0xFF && bytes[at] != 0x00 && bytes[at] != 0xFF {
            return Some(at);
        }
        at = at + 1;
    }
    None
}

/// Whether the code is that of a frame header.
pub fn frame_code(code: u8) -> (frame: bool)
    ensures
        frame == is_frame(code),
{
    0xC0 <= code && code <= 0xCF && code != 0xC4 && code != 0xC8 && code != 0xCC
}

/// Whether the code is that of a segment that may stand before the first
/// frame header.
pub fn table_or_note_code(code: u8) -> (passed: bool)
    ensures
        passed == is_table_or_note(code),
{
    code == 0xC4 || code == 0xDB || code == 0xDD || code == 0xFE || (0xE0 <= code && code <= 0xEF)
}

/// The code of the first frame header of a JPEG file, if the bytes are one
/// and hold one.
pub fn first_frame_code(bytes: &Vec<u8>) -> (code: Option<u8>)
    ensures
        code == first_frame(bytes@),
{
    if bytes.len() < 2 || bytes[0] != 0xFF || bytes[1] != START_OF_IMAGE {
        return None;
    }
    let mut from: usize = 2;
    loop
        invariant
            2 <= from <= bytes.len(),
            first_frame_from(bytes@, from as int) == first_frame(bytes@),
        decreases bytes.len() - from,
    {
        proof {
            lemma_marker_from_bounds(bytes@, from + 1);
        }
        let code_at = match next_marker(bytes, from) {
            Some(code_at) => code_at,
            None => {
                return None;
            },
        };
        let code: u8 = bytes[code_at];
        if frame_code(code) {
            return Some(code);
        }
        if !table_or_note_code(code) {
            return None;
        }
        if bytes.len() - code_at <= 2 {
            return None;
        }
        let length: usize = (bytes[code_at + 1] as usize) * 256 + (bytes[code_at + 2] as usize);
        if length < 2 || length > bytes.len() - code_at - 1 {
            return None;
        }
        from = code_at + 1 + length;
    }
}

/// Whether the bytes are a JPEG file whose picture is in the lossless
/// coding.
pub fn is_lossless_jpeg(bytes: &Vec<u8>) -> (lossless: bool)
    ensures
        lossless == lossless_jpeg(bytes@),
{
    match first_frame_code(bytes) {
        Some(code) => code == LOSSLESS_FRAME,
        None => false,
    }
}

} // verus!
