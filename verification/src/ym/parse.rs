//! The parser of YM files.
//!
//! A file starts with a four byte signature that names its version. `YM2!` and `YM3!` files
//! hold nothing but frames, stored register by register: the values of register 0 of every
//! frame, then those of register 1 and so on up to register 13. `YM3b` files end with the
//! loop frame. The later versions have a header, `DIGI-DRUM` samples and texts before their
//! frames. All numbers are big-endian.
use chrono::NaiveDateTime;
use vstd::prelude::*;
use vstd::utf8::{decode_utf8, valid_utf8};

use crate::ym::flags::{
    SongAttributes, DIGIDRUM_4BIT, DIGIDRUM_SIGNED, INTERLEAVED, SONG_ATTRIBUTES_MASK,
};
use crate::ym::laws::lemma_parsed_song;
use crate::ym::playback::SongState;
use crate::ym::song::YmSong;
use crate::ym::{YmFrame, YmVersion, MAX_DD_SAMPLES};

verus! {

/// Why a file was refused.
#[derive(Debug, Clone, Copy, PartialEq, Eq, Structural)]
pub enum ParseError {
    /// The file does not start with the signature of a supported version.
    UnrecognizedSignature,
    /// The size of a `YM2!` or `YM3!` file is not that of a whole number of frames, with or
    /// without a loop frame behind them.
    WrongFileSize,
    /// The file holds no frame.
    NoYmData,
    /// The second signature of the header is wrong.
    UnrecognizedVerifySignature,
    /// The header names a chipset frequency of zero.
    ChipsetPeriodZero,
    /// The header names a frame frequency of zero.
    FramePeriodZero,
    /// The header announces additional data.
    UnknownHeaderData,
    /// The header announces more than 32 samples.
    TooManyDigiDrumSamples,
    /// The file ends within a sample, or where a text should begin.
    EndedPrematurely,
    /// The file ends within a number, a signature or a frame.
    UnexpectedEof,
    /// The LHA archive could not be read.
    Archive,
}

/// What was found where a file should end with the tag `End!`.
#[derive(Debug, Clone, Copy, PartialEq, Eq, Structural)]
pub enum EndTag {
    /// The tag.
    Found,
    /// Four bytes that are not the tag.
    Wrong,
    /// Less than four bytes.
    Missing,
    /// Nothing was looked for: files of this version have no tag.
    NotExpected,
}

impl ParseError {
    /// Returns `true` if the file ended prematurely, and `false` if it holds invalid data.
    pub fn is_unexpected_eof(&self) -> (res: bool)
        ensures
            res == (*self == ParseError::EndedPrematurely || *self == ParseError::UnexpectedEof),
    {
        match self {
            ParseError::EndedPrematurely | ParseError::UnexpectedEof => true,
            _ => false,
        }
    }

    /// Returns the description of the error.
    pub fn message(&self) -> (res: &'static str)
        ensures
            res@ == match *self {
                ParseError::UnrecognizedSignature => "unrecognized file signature"@,
                ParseError::WrongFileSize => "wrong file size"@,
                ParseError::NoYmData => "no YM data"@,
                ParseError::UnrecognizedVerifySignature => "unrecognized file verify signature"@,
                ParseError::ChipsetPeriodZero => "chipset period must not be 0"@,
                ParseError::FramePeriodZero => "frame period must not be 0"@,
                ParseError::UnknownHeaderData => "unknown additional header data"@,
                ParseError::TooManyDigiDrumSamples => "too many digi-drum samples"@,
                ParseError::EndedPrematurely => "file ended prematurely"@,
                ParseError::UnexpectedEof => "failed to fill whole buffer"@,
                ParseError::Archive => "LHA decode error"@,
            },
    {
        match self {
            ParseError::UnrecognizedSignature => "unrecognized file signature",
            ParseError::WrongFileSize => "wrong file size",
            ParseError::NoYmData => "no YM data",
            ParseError::UnrecognizedVerifySignature => "unrecognized file verify signature",
            ParseError::ChipsetPeriodZero => "chipset period must not be 0",
            ParseError::FramePeriodZero => "frame period must not be 0",
            ParseError::UnknownHeaderData => "unknown additional header data",
            ParseError::TooManyDigiDrumSamples => "too many digi-drum samples",
            ParseError::EndedPrematurely => "file ended prematurely",
            ParseError::UnexpectedEof => "failed to fill whole buffer",
            ParseError::Archive => "LHA decode error",
        }
    }
}

/// The big-endian number that the two bytes of `data` at `pos` stand for.
pub open spec fn be16(data: Seq<u8>, pos: int) -> int {
    data[pos] * 0x100 + data[pos + 1]
}

/// The big-endian number that the four bytes of `data` at `pos` stand for.
pub open spec fn be32(data: Seq<u8>, pos: int) -> int {
    data[pos] * 0x100_0000 + data[pos + 1] * 0x1_0000 + data[pos + 2] * 0x100 + data[pos + 3]
}

/// Whether `data` holds the bytes of `tag` at `pos`.
pub open spec fn tag_at(data: Seq<u8>, pos: int, tag: Seq<u8>) -> bool {
    pos + tag.len() <= data.len() && data.subrange(pos, pos + tag.len()) == tag
}

/// Reads a big-endian 32-bit number at `pos`.
fn read_dword(data: &[u8], pos: usize) -> (res: Result<u32, ParseError>)
    requires
        pos <= data@.len(),
    ensures
        match res {
            Ok(value) => pos + 4 <= data@.len() && value == be32(data@, pos as int),
            Err(e) => pos + 4 > data@.len() && e == ParseError::UnexpectedEof,
        },
{
    if data.len() - pos < 4 {
        return Err(ParseError::UnexpectedEof);
    }
    let b0: u32 = data[pos] as u32;
    let b1: u32 = data[pos + 1] as u32;
    let b2: u32 = data[pos + 2] as u32;
    let b3: u32 = data[pos + 3] as u32;
    Ok(b0 * 0x100_0000 + b1 * 0x1_0000 + b2 * 0x100 + b3)
}

/// Reads a big-endian 16-bit number at `pos`.
fn read_word(data: &[u8], pos: usize) -> (res: Result<u16, ParseError>)
    requires
        pos <= data@.len(),
    ensures
        match res {
            Ok(value) => pos + 2 <= data@.len() && value == be16(data@, pos as int),
            Err(e) => pos + 2 > data@.len() && e == ParseError::UnexpectedEof,
        },
{
    if data.len() - pos < 2 {
        return Err(ParseError::UnexpectedEof);
    }
    let b0: u16 = data[pos] as u16;
    let b1: u16 = data[pos + 1] as u16;
    Ok(b0 * 0x100 + b1)
}

/// Whether the `tag.len()` bytes of `data` at `pos` are those of `tag`.
fn has_tag(data: &[u8], pos: usize, tag: &[u8]) -> (res: bool)
    requires
        pos + tag@.len() <= data@.len(),
    ensures
        res == tag_at(data@, pos as int, tag@),
{
    let len: usize = data.len();
    let mut i: usize = 0;
    while i < tag.len()
        invariant
            i <= tag@.len(),
            pos + tag@.len() <= data@.len() == len,
            forall|k: int| 0 <= k < i ==> data@[pos + k] == tag@[k],
        decreases tag.len() - i,
    {
        if data[pos + i] != tag[i] {
            assert(data@.subrange(pos as int, pos + tag@.len())[i as int] != tag@[i as int]);
            return false;
        }
        i = i + 1;
    }
    assert(data@.subrange(pos as int, pos + tag@.len()) =~= tag@);
    true
}

/// The text that `String::from_utf8_lossy` makes of `bytes`.
pub uninterp spec fn utf8_lossy(bytes: Seq<u8>) -> Seq<char>;

/// `String::from_utf8_lossy`: the text that the bytes encode in UTF-8, with the replacement
/// character U+FFFD for what is not valid UTF-8. Valid UTF-8 is decoded as it stands.
#[verifier::external_body]
fn string_from_utf8_lossy(bytes: &[u8]) -> (res: String)
    ensures
        res@ == utf8_lossy(bytes@),
        valid_utf8(bytes@) ==> res@ == decode_utf8(bytes@),
{
    String::from_utf8_lossy(bytes).into_owned()
}

/// The index of the first zero byte of `data` at or behind `pos`, or the length of `data`
/// if there is none.
pub open spec fn nul_from(data: Seq<u8>, pos: int) -> int
    decreases data.len() - pos,
{
    if pos >= data.len() {
        data.len() as int
    } else if data[pos] == 0 {
        pos
    } else {
        nul_from(data, pos + 1)
    }
}

/// Where the text that starts at `pos` ends: at the zero byte that ends it or, if the data
/// ends before one is found, at the last byte of the data, which is then not part of the
/// text.
pub open spec fn text_end(data: Seq<u8>, pos: int) -> int {
    if nul_from(data, pos) < data.len() {
        nul_from(data, pos)
    } else {
        data.len() - 1
    }
}

/// The bytes of the text that starts at `pos`.
pub open spec fn text_bytes(data: Seq<u8>, pos: int) -> Seq<u8> {
    data.subrange(pos, text_end(data, pos))
}

/// The first zero byte at or behind `pos` is not before `pos` nor behind the data, and no
/// byte between them is zero.
pub proof fn lemma_nul_from(data: Seq<u8>, pos: int)
    requires
        0 <= pos <= data.len(),
    ensures
        pos <= nul_from(data, pos) <= data.len(),
        nul_from(data, pos) < data.len() ==> data[nul_from(data, pos)] == 0,
        forall|k: int| pos <= k < nul_from(data, pos) ==> data[k] != 0,
    decreases data.len() - pos,
{
    if pos < data.len() && data[pos] != 0 {
        lemma_nul_from(data, pos + 1);
    }
}

/// Reads the text that starts at `pos` and is ended by a zero byte. Returns the text and
/// the position behind it.
fn read_cstr(data: &[u8], pos: usize) -> (res: Result<(String, usize), ParseError>)
    requires
        pos <= data@.len(),
    ensures
        match res {
            Ok((text, next)) => {
                &&& pos < data@.len()
                &&& text@ == utf8_lossy(text_bytes(data@, pos as int))
                &&& next == text_end(data@, pos as int) + 1
                &&& pos < next <= data@.len()
            },
            Err(e) => pos == data@.len() && e == ParseError::EndedPrematurely,
        },
{
    let len: usize = data.len();
    if pos == len {
        return Err(ParseError::EndedPrematurely);
    }
    let mut end: usize = pos;
    while end < len && data[end] != 0
        invariant
            pos <= end <= len == data@.len(),
            nul_from(data@, pos as int) == nul_from(data@, end as int),
        decreases len - end,
    {
        end = end + 1;
    }
    proof {
        lemma_nul_from(data@, pos as int);
    }
    if end == len {
        end = len - 1;
    }
    let bytes = vstd::slice::slice_subrange(data, pos, end);
    let text = string_from_utf8_lossy(bytes);
    Ok((text, end + 1))
}

/// Looks for the tag `End!` at `pos`.
pub fn read_song_end_tag(data: &[u8], pos: usize) -> (res: EndTag)
    requires
        pos <= data@.len(),
    ensures
        res == end_tag_at(data@, pos as int),
{
    if data.len() - pos < 4 {
        return EndTag::Missing;
    }
    let tag: [u8; 4] = [0x45, 0x6e, 0x64, 0x21];
    if has_tag(data, pos, tag.as_slice()) {
        assert(tag@ =~= end_tag());
        EndTag::Found
    } else {
        assert(tag@ =~= end_tag());
        EndTag::Wrong
    }
}

/// The bytes of `End!`.
pub open spec fn end_tag() -> Seq<u8> {
    seq![0x45u8, 0x6eu8, 0x64u8, 0x21u8]
}

/// What is found at `pos` where the tag `End!` should be.
pub open spec fn end_tag_at(data: Seq<u8>, pos: int) -> EndTag {
    if data.len() - pos < 4 {
        EndTag::Missing
    } else if tag_at(data, pos, end_tag()) {
        EndTag::Found
    } else {
        EndTag::Wrong
    }
}

/// The bytes of each of the `frames`.
pub open spec fn frames_of(frames: Seq<YmFrame>) -> Seq<Seq<u8>> {
    Seq::new(frames.len(), |i: int| frames[i]@)
}

/// The version that the signature at the start of `data` names, if it is one of the
/// signatures `YM2!`, `YM3!`, `YM3b`, `YM4!`, `YM5!` and `YM6!`.
pub open spec fn signature_of(data: Seq<u8>) -> Option<YmVersion> {
    if data[0] != 0x59 || data[1] != 0x4d {
        None
    } else if data[2] == 0x33 && data[3] == 0x62 {
        Some(YmVersion::Ym3)
    } else if data[3] != 0x21 {
        None
    } else if data[2] == 0x32 {
        Some(YmVersion::Ym2)
    } else if data[2] == 0x33 {
        Some(YmVersion::Ym3)
    } else if data[2] == 0x34 {
        Some(YmVersion::Ym4)
    } else if data[2] == 0x35 {
        Some(YmVersion::Ym5)
    } else if data[2] == 0x36 {
        Some(YmVersion::Ym6)
    } else {
        None
    }
}

/// The bytes of `LeOnArD!`, the second signature of the later versions.
pub open spec fn verify_tag() -> Seq<u8> {
    seq![0x4cu8, 0x65u8, 0x4fu8, 0x6eu8, 0x41u8, 0x72u8, 0x44u8, 0x21u8]
}

/// The 4-bit value that a song with the attributes `attrs` plays for the sample byte
/// `byte`: the byte itself if the samples are 4-bit already, else its high nibble, taken
/// after half the range has been added to a signed byte.
pub open spec fn sample_value(attrs: u32, byte: u8) -> u8 {
    if attrs & DIGIDRUM_4BIT != 0 {
        byte
    } else if attrs & DIGIDRUM_SIGNED != 0 {
        ((((byte + 0x80) as u16) & 0xff) >> 4) as u8
    } else {
        byte >> 4
    }
}

/// Frame `i` of `count` frames that are stored at `pos` register by register, `regs`
/// registers each: first register 0 of every frame, then register 1 and so on. A register
/// that lies behind the end of the data is zero, and so are the registers from `regs` on.
pub open spec fn interleaved_frame(data: Seq<u8>, pos: int, count: int, regs: int, i: int) -> Seq<
    u8,
> {
    Seq::new(
        16,
        |r: int|
            if r < regs && pos + r * count + i < data.len() {
                data[pos + r * count + i]
            } else {
                0u8
            },
    )
}

/// `count` frames that are stored at `pos` register by register.
pub open spec fn interleaved_frames(data: Seq<u8>, pos: int, count: int, regs: int) -> Seq<
    Seq<u8>,
> {
    Seq::new(count as nat, |i: int| interleaved_frame(data, pos, count, regs, i))
}

/// `count` frames that are stored at `pos` one after the other, sixteen bytes each.
pub open spec fn plain_frames(data: Seq<u8>, pos: int, count: int) -> Seq<Seq<u8>> {
    Seq::new(count as nat, |i: int| data.subrange(pos + 16 * i, pos + 16 * i + 16))
}

/// The fixed part of the header of the later versions.
pub struct Header {
    pub nframes: nat,
    pub attrs: u32,
    pub nsamples: nat,
    pub chipset_frequency: u32,
    pub frame_frequency: u16,
    pub loop_frame: u32,
    /// Where the samples begin.
    pub next: int,
}

/// The start of the header of the later versions: behind the signature of the version the
/// second signature, the number of frames, which must not be zero, the attributes and the
/// number of samples, which is 32 at most.
pub open spec fn common_of(data: Seq<u8>) -> Result<(nat, u32, nat), ParseError> {
    if data.len() < 12 {
        Err(ParseError::UnexpectedEof)
    } else if !tag_at(data, 4, verify_tag()) {
        Err(ParseError::UnrecognizedVerifySignature)
    } else if data.len() < 16 {
        Err(ParseError::UnexpectedEof)
    } else if be32(data, 12) == 0 {
        Err(ParseError::NoYmData)
    } else if data.len() < 22 {
        Err(ParseError::UnexpectedEof)
    } else if be16(data, 20) > MAX_DD_SAMPLES {
        Err(ParseError::TooManyDigiDrumSamples)
    } else {
        Ok(
            (
                be32(data, 12) as nat,
                (be32(data, 16) as u32) & SONG_ATTRIBUTES_MASK,
                be16(data, 20) as nat,
            ),
        )
    }
}

/// The header of a file of one of the later versions. In a `YM4!` file the loop frame
/// follows the start of the header. In the others the chipset frequency and the frame
/// frequency follow, neither of them zero, then the loop frame and the size of the
/// additional data, which must be zero.
pub open spec fn header_of(data: Seq<u8>, version: YmVersion) -> Result<Header, ParseError> {
    match common_of(data) {
        Err(e) => Err(e),
        Ok((nframes, attrs, nsamples)) => if version == YmVersion::Ym4 {
            if data.len() < 26 {
                Err(ParseError::UnexpectedEof)
            } else {
                Ok(
                    Header {
                        nframes,
                        attrs,
                        nsamples,
                        chipset_frequency: 2_000_000,
                        frame_frequency: 50,
                        loop_frame: be32(data, 22) as u32,
                        next: 26,
                    },
                )
            }
        } else if data.len() < 28 {
            Err(ParseError::UnexpectedEof)
        } else if be32(data, 22) == 0 {
            Err(ParseError::ChipsetPeriodZero)
        } else if be16(data, 26) == 0 {
            Err(ParseError::FramePeriodZero)
        } else if data.len() < 34 {
            Err(ParseError::UnexpectedEof)
        } else if be16(data, 32) != 0 {
            Err(ParseError::UnknownHeaderData)
        } else {
            Ok(
                Header {
                    nframes,
                    attrs,
                    nsamples,
                    chipset_frequency: be32(data, 22) as u32,
                    frame_frequency: be16(data, 26) as u16,
                    loop_frame: be32(data, 28) as u32,
                    next: 34,
                },
            )
        },
    }
}

/// The samples of a file: their bytes, one sample after the other, and where each of them
/// ends in these bytes.
pub struct SampleTable {
    pub data: Seq<u8>,
    pub ends: Seq<usize>,
    /// Where the texts begin.
    pub next: int,
}

/// The first `count` samples that are stored at `pos`, each of them behind its size. The
/// ends of the samples that were not read are zero.
pub open spec fn samples_from(data: Seq<u8>, pos: int, count: nat) -> Result<
    SampleTable,
    ParseError,
>
    decreases count,
{
    if count == 0 {
        Ok(
            SampleTable {
                data: Seq::empty(),
                ends: Seq::new(MAX_DD_SAMPLES as nat, |i: int| 0usize),
                next: pos,
            },
        )
    } else {
        match samples_from(data, pos, (count - 1) as nat) {
            Err(e) => Err(e),
            Ok(table) => if table.next + 4 > data.len() {
                Err(ParseError::UnexpectedEof)
            } else if table.next + 4 + be32(data, table.next) > data.len() {
                Err(ParseError::EndedPrematurely)
            } else {
                let size = be32(data, table.next);
                Ok(
                    SampleTable {
                        data: table.data + data.subrange(table.next + 4, table.next + 4 + size),
                        ends: table.ends.update(count - 1, (table.data.len() + size) as usize),
                        next: table.next + 4 + size,
                    },
                )
            },
        }
    }
}

/// A sample table that was read lies within the data, no sample ends behind the sample
/// bytes or before the sample before it, and the samples that were not read end at zero.
pub proof fn lemma_samples_from(data: Seq<u8>, pos: int, count: nat)
    requires
        0 <= pos <= data.len() <= usize::MAX,
        count <= MAX_DD_SAMPLES,
    ensures
        samples_from(data, pos, count) matches Ok(table) ==> {
            &&& pos <= table.next <= data.len()
            &&& table.data.len() + 4 * count == table.next - pos
            &&& table.ends.len() == MAX_DD_SAMPLES
            &&& forall|i: int| 0 <= i < MAX_DD_SAMPLES ==> table.ends[i] <= table.data.len()
            &&& forall|i: int| count <= i < MAX_DD_SAMPLES ==> table.ends[i] == 0
            &&& forall|i: int, j: int| 0 <= i <= j < count ==> table.ends[i] <= table.ends[j]
            &&& count > 0 ==> table.ends[count - 1] == table.data.len()
        },
    decreases count,
{
    if count > 0 {
        lemma_samples_from(data, pos, (count - 1) as nat);
        if let Ok(before) = samples_from(data, pos, (count - 1) as nat) {
            if let Ok(table) = samples_from(data, pos, count) {
                let size = be32(data, before.next);
                assert(table.data.len() == before.data.len() + size);
                assert(table.ends == before.ends.update(count - 1, table.data.len() as usize));
                assert forall|i: int, j: int| 0 <= i <= j < count implies table.ends[i]
                    <= table.ends[j] by {
                    if j == count - 1 && i < j {
                        assert(table.ends[i] == before.ends[i]);
                    }
                }
            }
        }
    }
}

/// Once reading the samples has failed, it fails in the same way however many more
/// samples are asked for.
pub proof fn lemma_samples_fail(data: Seq<u8>, pos: int, failed: nat, count: nat)
    requires
        failed <= count,
        samples_from(data, pos, failed) is Err,
    ensures
        samples_from(data, pos, count) == samples_from(data, pos, failed),
    decreases count,
{
    if failed < count {
        lemma_samples_fail(data, pos, failed, (count - 1) as nat);
    }
}

/// What a file of one of the later versions holds behind its header.
pub struct Body {
    pub samples: SampleTable,
    pub title: Seq<char>,
    pub author: Seq<char>,
    pub comments: Seq<char>,
    pub frames: Seq<Seq<u8>>,
    pub end_tag: EndTag,
}

/// The body of a file whose header is `header`: the samples, then the title, the author
/// and the comments, each of them ended by a zero byte, then the frames, stored register by
/// register if the attributes say so, and the tag `End!`.
pub open spec fn body_of(data: Seq<u8>, header: Header) -> Result<Body, ParseError> {
    match samples_from(data, header.next, header.nsamples) {
        Err(e) => Err(e),
        Ok(samples) => {
            let author_at = text_end(data, samples.next) + 1;
            let comments_at = text_end(data, author_at) + 1;
            let frames_at = text_end(data, comments_at) + 1;
            if samples.next >= data.len() || author_at >= data.len() || comments_at
                >= data.len() {
                Err(ParseError::EndedPrematurely)
            } else if header.attrs & INTERLEAVED != 0 {
                Ok(
                    Body {
                        samples,
                        title: utf8_lossy(text_bytes(data, samples.next)),
                        author: utf8_lossy(text_bytes(data, author_at)),
                        comments: utf8_lossy(text_bytes(data, comments_at)),
                        frames: interleaved_frames(data, frames_at, header.nframes as int, 16),
                        end_tag: end_tag_at(
                            data,
                            if frames_at + 16 * header.nframes <= data.len() {
                                frames_at + 16 * header.nframes
                            } else {
                                data.len() as int
                            },
                        ),
                    },
                )
            } else if frames_at + 16 * header.nframes > data.len() {
                Err(ParseError::UnexpectedEof)
            } else {
                Ok(
                    Body {
                        samples,
                        title: utf8_lossy(text_bytes(data, samples.next)),
                        author: utf8_lossy(text_bytes(data, author_at)),
                        comments: utf8_lossy(text_bytes(data, comments_at)),
                        frames: plain_frames(data, frames_at, header.nframes as int),
                        end_tag: end_tag_at(data, frames_at + 16 * header.nframes),
                    },
                )
            }
        },
    }
}

/// The song that a `YM2!` or `YM3!` file holds. The data behind the signature must be as
/// long as a whole number of frames of 14 registers, not zero, with or without the four
/// bytes of a loop frame. The frames are stored register by register. Without a loop frame
/// the song loops to its first frame.
pub open spec fn early_song(
    data: Seq<u8>,
    version: YmVersion,
    title: Seq<char>,
    created: Option<NaiveDateTime>,
) -> Result<SongState, ParseError> {
    let size = data.len() - 4;
    if size % 14 != 0 && size % 14 != 4 {
        Err(ParseError::WrongFileSize)
    } else if size / 14 == 0 {
        Err(ParseError::NoYmData)
    } else {
        Ok(
            SongState::fresh(
                version,
                interleaved_frames(data, 4, size / 14, 14),
                if size % 14 == 4 {
                    be32(data, 4 + 14 * (size / 14)) as u32
                } else {
                    0
                },
                title,
                created,
            ),
        )
    }
}

/// The song that a `YM4!`, `YM5!` or `YM6!` file holds, and what was found in place of
/// its end tag. The title is that of the file.
pub open spec fn later_song(data: Seq<u8>, version: YmVersion, created: Option<NaiveDateTime>)
    -> Result<(SongState, EndTag), ParseError> {
    match header_of(data, version) {
        Err(e) => Err(e),
        Ok(header) => match body_of(data, header) {
            Err(e) => Err(e),
            Ok(body) => Ok(
                (
                    SongState {
                        song_attrs: header.attrs,
                        author: body.author,
                        comments: body.comments,
                        chipset_frequency: header.chipset_frequency,
                        frame_frequency: header.frame_frequency,
                        dd_samples: body.samples.data.map_values(
                            |byte: u8| sample_value(header.attrs, byte),
                        ),
                        dd_samples_ends: body.samples.ends,
                        ..SongState::fresh(
                            version,
                            body.frames,
                            header.loop_frame,
                            body.title,
                            created,
                        )
                    },
                    body.end_tag,
                ),
            ),
        },
    }
}

/// The song that the file `data` holds, and what was found in place of its end tag.
/// `title` is the title of a song whose file names none.
pub open spec fn parsed(data: Seq<u8>, title: Seq<char>, created: Option<NaiveDateTime>) -> Result<
    (SongState, EndTag),
    ParseError,
> {
    if data.len() < 4 {
        Err(ParseError::UnexpectedEof)
    } else {
        match signature_of(data) {
            None => Err(ParseError::UnrecognizedSignature),
            Some(YmVersion::Ym2) => match early_song(data, YmVersion::Ym2, title, created) {
                Ok(song) => Ok((song, EndTag::NotExpected)),
                Err(e) => Err(e),
            },
            Some(YmVersion::Ym3) => match early_song(data, YmVersion::Ym3, title, created) {
                Ok(song) => Ok((song, EndTag::NotExpected)),
                Err(e) => Err(e),
            },
            Some(version) => later_song(data, version, created),
        }
    }
}

/// Converts a sample byte to the 4-bit value that is played.
fn convert_sample(attrs: SongAttributes, byte: u8) -> (res: u8)
    ensures
        res == sample_value(attrs@, byte),
{
    if attrs.is_4bit() {
        byte
    } else if attrs.is_signed() {
        let shifted: u16 = (byte as u16 + 0x80) & 0xff;
        (shifted >> 4) as u8
    } else {
        byte >> 4
    }
}

/// Reads the start of the header of the later versions: the number of frames, the
/// attributes and the number of samples.
fn parse_ym4_common(data: &[u8]) -> (res: Result<(usize, SongAttributes, u16), ParseError>)
    requires
        4 <= data@.len(),
    ensures
        match common_of(data@) {
            Ok((nframes, attrs, nsamples)) => res matches Ok(found) && found.0 == nframes
                && found.1@ == attrs && found.2 == nsamples,
            Err(e) => res == Err::<(usize, SongAttributes, u16), ParseError>(e),
        },
{
    if data.len() < 12 {
        return Err(ParseError::UnexpectedEof);
    }
    let leonard: [u8; 8] = [0x4c, 0x65, 0x4f, 0x6e, 0x41, 0x72, 0x44, 0x21];
    assert(leonard@ =~= verify_tag());
    if !has_tag(data, 4, leonard.as_slice()) {
        return Err(ParseError::UnrecognizedVerifySignature);
    }
    let nframes: u32 = read_dword(data, 12)?;
    if nframes == 0 {
        return Err(ParseError::NoYmData);
    }
    let bits: u32 = read_dword(data, 16)?;
    let attrs = SongAttributes::from_bits_truncate(bits);
    let dd_nsamples: u16 = read_word(data, 20)?;
    if dd_nsamples as usize > MAX_DD_SAMPLES {
        return Err(ParseError::TooManyDigiDrumSamples);
    }
    Ok((nframes as usize, attrs, dd_nsamples))
}

/// Reads `nsamples` samples at `pos`, each of them behind its size, and converts them to
/// 4-bit values. Returns these values, where each sample ends in them, and the position
/// behind the samples.
fn read_digidrum_samples(data: &[u8], pos: usize, nsamples: u16, song_attrs: SongAttributes) -> (res:
    Result<(Vec<u8>, [usize; MAX_DD_SAMPLES], usize), ParseError>)
    requires
        pos <= data@.len(),
        nsamples <= MAX_DD_SAMPLES,
    ensures
        match samples_from(data@, pos as int, nsamples as nat) {
            Ok(table) => res matches Ok(found) && found.0@ == table.data.map_values(
                |byte: u8| sample_value(song_attrs@, byte),
            ) && found.1@ == table.ends && found.2 == table.next,
            Err(e) => res == Err::<(Vec<u8>, [usize; MAX_DD_SAMPLES], usize), ParseError>(e),
        },
{
    let len: usize = data.len();
    let mut samples: Vec<u8> = Vec::new();
    let mut sample_ends: [usize; MAX_DD_SAMPLES] = [0usize;MAX_DD_SAMPLES];
    let mut at: usize = pos;
    let mut i: usize = 0;
    let ghost mut raw: Seq<u8> = Seq::empty();
    assert(sample_ends@ =~= Seq::new(MAX_DD_SAMPLES as nat, |i: int| 0usize));
    while i < nsamples as usize
        invariant
            i <= nsamples <= MAX_DD_SAMPLES,
            pos <= at <= len == data@.len(),
            samples_from(data@, pos as int, i as nat) == Ok::<SampleTable, ParseError>(
                SampleTable { data: raw, ends: sample_ends@, next: at as int },
            ),
            samples@ == raw.map_values(|byte: u8| sample_value(song_attrs@, byte)),
            raw.len() <= at - pos,
        decreases nsamples - i,
    {
        proof {
            lemma_samples_from(data@, pos as int, i as nat);
            if samples_from(data@, pos as int, (i + 1) as nat) is Err {
                lemma_samples_fail(data@, pos as int, (i + 1) as nat, nsamples as nat);
            }
        }
        let nbytes: u32 = read_dword(data, at)?;
        let start: usize = at + 4;
        if nbytes as u64 > (len - start) as u64 {
            return Err(ParseError::EndedPrematurely);
        }
        let end: usize = start + nbytes as usize;
        let ghost before = raw;
        let mut k: usize = start;
        while k < end
            invariant
                start <= k <= end <= len == data@.len(),
                raw == before + data@.subrange(start as int, k as int),
                samples@ == raw.map_values(|byte: u8| sample_value(song_attrs@, byte)),
            decreases end - k,
        {
            samples.push(convert_sample(song_attrs, data[k]));
            proof {
                let grown = raw.push(data@[k as int]);
                assert(grown =~= before + data@.subrange(start as int, k + 1));
                assert(samples@ =~= grown.map_values(
                    |byte: u8| sample_value(song_attrs@, byte),
                ));
                raw = grown;
            }
            k = k + 1;
        }
        sample_ends[i] = samples.len();
        at = end;
        i = i + 1;
    }
    Ok((samples, sample_ends, at))
}

/// Reads the title, the author and the comments at `pos`. Returns them and the position
/// behind them.
fn read_song_meta(data: &[u8], pos: usize) -> (res: Result<
    (String, String, String, usize),
    ParseError,
>)
    requires
        pos <= data@.len(),
    ensures
        ({
            let author_at = text_end(data@, pos as int) + 1;
            let comments_at = text_end(data@, author_at) + 1;
            if pos >= data@.len() || author_at >= data@.len() || comments_at >= data@.len() {
                res == Err::<(String, String, String, usize), ParseError>(
                    ParseError::EndedPrematurely,
                )
            } else {
                &&& res matches Ok(found)
                &&& found.0@ == utf8_lossy(text_bytes(data@, pos as int))
                &&& found.1@ == utf8_lossy(text_bytes(data@, author_at))
                &&& found.2@ == utf8_lossy(text_bytes(data@, comments_at))
                &&& found.3 == text_end(data@, comments_at) + 1
                &&& found.3 <= data@.len()
            }
        }),
{
    let (title, author_at) = read_cstr(data, pos)?;
    let (author, comments_at) = read_cstr(data, author_at)?;
    let (comments, next) = read_cstr(data, comments_at)?;
    Ok((title, author, comments, next))
}

/// Reads `nframes` frames of `regs` registers that are stored at `pos` register by
/// register. What lies behind the end of the data is read as zero.
fn read_interleaved_frames(nframes: usize, regs: usize, data: &[u8], pos: usize) -> (res: Vec<
    YmFrame,
>)
    requires
        pos <= data@.len(),
        regs <= 16,
    ensures
        frames_of(res@) == interleaved_frames(data@, pos as int, nframes as int, regs as int),
{
    let len: usize = data.len();
    let avail: usize = len - pos;
    let mut frames: Vec<YmFrame> = Vec::new();
    let mut i: usize = 0;
    while i < nframes
        invariant
            i <= nframes,
            regs <= 16,
            pos + avail == data@.len() == len,
            frames@.len() == i,
            forall|j: int|
                0 <= j < i ==> (#[trigger] frames@[j])@ == interleaved_frame(
                    data@,
                    pos as int,
                    nframes as int,
                    regs as int,
                    j,
                ),
        decreases nframes - i,
    {
        let mut bytes: [u8; 16] = [0u8;16];
        let mut r: usize = 0;
        while r < regs
            invariant
                r <= regs <= 16,
                i < nframes,
                pos + avail == data@.len() == len,
                forall|q: int|
                    0 <= q < 16 ==> bytes@[q] == if q < r && pos + q * nframes + i < data@.len() {
                        data@[pos + q * nframes + i]
                    } else {
                        0u8
                    },
            decreases regs - r,
        {
            assert(r * nframes <= 16 * usize::MAX) by (nonlinear_arith)
                requires
                    r <= 16,
                    nframes <= usize::MAX,
            ;
            let offset: u128 = (r as u128) * (nframes as u128) + (i as u128);
            if offset < avail as u128 {
                bytes[r] = data[pos + offset as usize];
            }
            r = r + 1;
        }
        assert(bytes@ =~= interleaved_frame(
            data@,
            pos as int,
            nframes as int,
            regs as int,
            i as int,
        ));
        frames.push(YmFrame { data: bytes });
        i = i + 1;
    }
    assert(frames_of(frames@) =~= interleaved_frames(
        data@,
        pos as int,
        nframes as int,
        regs as int,
    ));
    frames
}

/// Reads `nframes` frames that are stored at `pos` one after the other.
fn read_non_interleaved_frames(nframes: usize, data: &[u8], pos: usize) -> (res: Result<
    Vec<YmFrame>,
    ParseError,
>)
    requires
        pos <= data@.len(),
    ensures
        match res {
            Ok(frames) => pos + 16 * nframes <= data@.len() && frames_of(frames@) == plain_frames(
                data@,
                pos as int,
                nframes as int,
            ),
            Err(e) => pos + 16 * nframes > data@.len() && e == ParseError::UnexpectedEof,
        },
{
    let len: usize = data.len();
    let avail: usize = len - pos;
    if nframes > avail / 16 {
        return Err(ParseError::UnexpectedEof);
    }
    let mut frames: Vec<YmFrame> = Vec::new();
    let mut i: usize = 0;
    while i < nframes
        invariant
            i <= nframes,
            pos + 16 * nframes <= data@.len() == len,
            frames@.len() == i,
            forall|j: int|
                0 <= j < i ==> (#[trigger] frames@[j])@ == data@.subrange(
                    pos + 16 * j,
                    pos + 16 * j + 16,
                ),
        decreases nframes - i,
    {
        let start: usize = pos + 16 * i;
        let mut bytes: [u8; 16] = [0u8;16];
        let mut r: usize = 0;
        while r < 16
            invariant
                r <= 16,
                start + 16 <= data@.len() == len,
                forall|q: int| 0 <= q < r ==> bytes@[q] == data@[start + q],
            decreases 16 - r,
        {
            bytes[r] = data[start + r];
            r = r + 1;
        }
        assert(bytes@ =~= data@.subrange(start as int, start + 16));
        frames.push(YmFrame { data: bytes });
        i = i + 1;
    }
    assert(frames_of(frames@) =~= plain_frames(data@, pos as int, nframes as int));
    Ok(frames)
}

/// The position behind `nframes` frames that were read at `pos` register by register: the
/// end of the data if that comes first.
fn interleaved_end(data: &[u8], pos: usize, nframes: usize) -> (res: usize)
    requires
        pos <= data@.len(),
    ensures
        res == if pos + 16 * nframes <= data@.len() {
            pos + 16 * nframes
        } else {
            data@.len() as int
        },
{
    let avail: usize = data.len() - pos;
    if nframes > avail / 16 {
        data.len()
    } else {
        pos + 16 * nframes
    }
}

/// Reads the body of a file of one of the later versions, which starts at `pos`.
fn read_body(data: &[u8], pos: usize, nframes: usize, song_attrs: SongAttributes, nsamples: u16)
    -> (res: Result<
    (Vec<u8>, [usize; MAX_DD_SAMPLES], String, String, String, Vec<YmFrame>, EndTag),
    ParseError,
>)
    requires
        pos <= data@.len(),
        nsamples <= MAX_DD_SAMPLES,
    ensures
        ({
            let header = Header {
                nframes: nframes as nat,
                attrs: song_attrs@,
                nsamples: nsamples as nat,
                chipset_frequency: 0,
                frame_frequency: 0,
                loop_frame: 0,
                next: pos as int,
            };
            match body_of(data@, header) {
                Ok(body) => {
                    &&& res matches Ok(found)
                    &&& found.0@ == body.samples.data.map_values(
                        |byte: u8| sample_value(song_attrs@, byte),
                    )
                    &&& found.1@ == body.samples.ends
                    &&& found.2@ == body.title
                    &&& found.3@ == body.author
                    &&& found.4@ == body.comments
                    &&& frames_of(found.5@) == body.frames
                    &&& found.6 == body.end_tag
                },
                Err(e) => res matches Err(found) && found == e,
            }
        }),
{
    let len: usize = data.len();
    proof {
        lemma_samples_from(data@, pos as int, nsamples as nat);
    }
    let (dd_samples, dd_samples_ends, texts_at) = read_digidrum_samples(
        data,
        pos,
        nsamples,
        song_attrs,
    )?;
    let (title, author, comments, frames_at) = read_song_meta(data, texts_at)?;
    let (frames, tag_at) = if song_attrs.is_interleaved() {
        (
            read_interleaved_frames(nframes, 16, data, frames_at),
            interleaved_end(data, frames_at, nframes),
        )
    } else {
        (read_non_interleaved_frames(nframes, data, frames_at)?, frames_at + 16 * nframes)
    };
    let end_tag = read_song_end_tag(data, tag_at);
    Ok((dd_samples, dd_samples_ends, title, author, comments, frames, end_tag))
}

/// Parses a `YM3!` file, or a `YM2!` file, which is laid out in the same way. `data` is the
/// whole file, signature included.
///
/// The size is looked at first: a file whose frames do not fill it, with or without a loop
/// frame behind them, is refused for its size whatever it holds.
pub fn parse_ym3(version: YmVersion, data: &[u8], title: String, created: Option<NaiveDateTime>) -> (res:
    Result<YmSong, ParseError>)
    requires
        4 <= data@.len(),
    ensures
        match early_song(data@, version, title@, created) {
            Ok(state) => res matches Ok(song) && song@ == state,
            Err(e) => res matches Err(found) && found == e,
        },
{
    let size: usize = data.len() - 4;
    let extra: usize = size % 14;
    if extra != 0 && extra != 4 {
        return Err(ParseError::WrongFileSize);
    }
    let nframes: usize = size / 14;
    if nframes == 0 {
        return Err(ParseError::NoYmData);
    }
    let frames = read_interleaved_frames(nframes, 14, data, 4);
    let loop_frame: u32 = if extra == 4 {
        read_dword(data, 4 + 14 * nframes)?
    } else {
        0
    };
    Ok(YmSong::new(version, frames, loop_frame, title, created))
}

/// Parses a `YM2!` file. The song comes without the sample values that all `YM2!` songs
/// share: see [`YmSong::with_ym2_samples`].
fn parse_ym2(data: &[u8], title: String, created: Option<NaiveDateTime>) -> (res: Result<
    YmSong,
    ParseError,
>)
    requires
        4 <= data@.len(),
    ensures
        match early_song(data@, YmVersion::Ym2, title@, created) {
            Ok(state) => res matches Ok(song) && song@ == state,
            Err(e) => res matches Err(found) && found == e,
        },
{
    parse_ym3(YmVersion::Ym2, data, title, created)
}

/// Parses a `YM4!` file.
fn parse_ym4(data: &[u8], created: Option<NaiveDateTime>) -> (res: Result<
    (YmSong, EndTag),
    ParseError,
>)
    requires
        4 <= data@.len(),
    ensures
        match later_song(data@, YmVersion::Ym4, created) {
            Ok((state, end_tag)) => res matches Ok(found) && found.0@ == state && found.1
                == end_tag,
            Err(e) => res matches Err(found) && found == e,
        },
{
    let (nframes, song_attrs, dd_nsamples) = parse_ym4_common(data)?;
    let loop_frame: u32 = read_dword(data, 22)?;
    let (dd_samples, dd_samples_ends, title, author, comments, frames, end_tag) = read_body(
        data,
        26,
        nframes,
        song_attrs,
        dd_nsamples,
    )?;
    let song = YmSong::new(YmVersion::Ym4, frames, loop_frame, title, created).with_samples(
        song_attrs,
        dd_samples,
        dd_samples_ends,
    ).with_meta(author, comments);
    Ok((song, end_tag))
}

/// Parses a `YM5!` or `YM6!` file.
fn parse_ym5(version: YmVersion, data: &[u8], created: Option<NaiveDateTime>) -> (res: Result<
    (YmSong, EndTag),
    ParseError,
>)
    requires
        4 <= data@.len(),
        version != YmVersion::Ym4,
    ensures
        match later_song(data@, version, created) {
            Ok((state, end_tag)) => res matches Ok(found) && found.0@ == state && found.1
                == end_tag,
            Err(e) => res matches Err(found) && found == e,
        },
{
    let (nframes, song_attrs, dd_nsamples) = parse_ym4_common(data)?;
    let chipset_frequency: u32 = read_dword(data, 22)?;
    let frame_frequency: u16 = read_word(data, 26)?;
    if chipset_frequency == 0 {
        return Err(ParseError::ChipsetPeriodZero);
    }
    if frame_frequency == 0 {
        return Err(ParseError::FramePeriodZero);
    }
    let loop_frame: u32 = read_dword(data, 28)?;
    if 0 != read_word(data, 32)? {
        return Err(ParseError::UnknownHeaderData);
    }
    let (dd_samples, dd_samples_ends, title, author, comments, frames, end_tag) = read_body(
        data,
        34,
        nframes,
        song_attrs,
        dd_nsamples,
    )?;
    let song = YmSong::new(version, frames, loop_frame, title, created).with_samples(
        song_attrs,
        dd_samples,
        dd_samples_ends,
    ).with_meta(author, comments).with_frequency(chipset_frequency, frame_frequency);
    Ok((song, end_tag))
}

/// Parses the YM file `data`.
///
/// `title` is the title of the song if the file names none, which only the later versions
/// do. `created` is taken over as it is.
///
/// Returns the song and what was found in place of the tag `End!`, whose absence is not
/// held against the file.
pub fn parse_ym(data: &[u8], title: String, created: Option<NaiveDateTime>) -> (res: Result<
    (YmSong, EndTag),
    ParseError,
>)
    ensures
        match parsed(data@, title@, created) {
            Ok((state, end_tag)) => res matches Ok(found) && found.0@ == state && found.1
                == end_tag,
            Err(e) => res matches Err(found) && found == e,
        },
        res matches Ok(found) ==> found.0@.version == YmVersion::Ym2 || found.0@.wf(),
{
    if data.len() < 4 {
        return Err(ParseError::UnexpectedEof);
    }
    proof {
        lemma_parsed_song(data@, title@, created);
    }
    if data[0] != 0x59 || data[1] != 0x4d {
        return Err(ParseError::UnrecognizedSignature);
    }
    let digit: u8 = data[2];
    let mark: u8 = data[3];
    if digit == 0x33 && mark == 0x62 {
        return match parse_ym3(YmVersion::Ym3, data, title, created) {
            Ok(song) => Ok((song, EndTag::NotExpected)),
            Err(e) => Err(e),
        };
    }
    if mark != 0x21 {
        return Err(ParseError::UnrecognizedSignature);
    }
    if digit == 0x32 {
        match parse_ym2(data, title, created) {
            Ok(song) => Ok((song, EndTag::NotExpected)),
            Err(e) => Err(e),
        }
    } else if digit == 0x33 {
        match parse_ym3(YmVersion::Ym3, data, title, created) {
            Ok(song) => Ok((song, EndTag::NotExpected)),
            Err(e) => Err(e),
        }
    } else if digit == 0x34 {
        parse_ym4(data, created)
    } else if digit == 0x35 {
        parse_ym5(YmVersion::Ym5, data, created)
    } else if digit == 0x36 {
        parse_ym5(YmVersion::Ym6, data, created)
    } else {
        Err(ParseError::UnrecognizedSignature)
    }
}

impl YmSong {
    /// Attempts to parse an uncompressed YM-file from the given `data`.
    ///
    /// Provide `file_name` which will be used as a fallback song title.
    ///
    /// Returns an instance of `YmSong` on success.
    pub fn parse_unpacked(data: &[u8], file_name: String) -> (res: Result<YmSong, ParseError>)
        ensures
            match parsed(data@, file_name@, None) {
                Ok((state, _)) => res matches Ok(song) && song@ == state,
                Err(e) => res matches Err(found) && found == e,
            },
            res matches Ok(song) ==> song@.version == YmVersion::Ym2 || song@.wf(),
    {
        match parse_ym(data, file_name, None) {
            Ok((song, _)) => Ok(song),
            Err(e) => Err(e),
        }
    }
}

} // verus!
