//! Telling an audio file from a playlist by the first bytes of the file.

use vstd::prelude::*;

verus! {

/// What a file holds, by its leading magic bytes.
#[derive(PartialEq, Eq, Structural, Debug, Clone, Copy)]
pub enum FileFormat {
    /// Ogg (starts with `OggS`).
    Ogg,
    /// MP3: with an ID3 tag (starts with `ID3`), or starting right at an MPEG
    /// audio frame (the eleven set bits of a frame sync).
    Mp3,
    /// FLAC (starts with `fLaC`).
    Flac,
    /// WAV (a RIFF file of form type `WAVE`).
    Wav,
    /// Anything else; the player reads it as a playlist.
    Other,
}

/// Why the format could not be told.
#[derive(PartialEq, Eq, Structural, Debug, Clone, Copy)]
pub enum HeaderError {
    /// The file ends before the magic bytes that were to be compared.
    TooShort,
}

/// How many bytes from the start of the file the detection reads (the RIFF
/// header of a WAV file is the longest).
pub const HEADER_WINDOW: usize = 12;

/// Where reading a playlist file resumes after detection: just past the last
/// four-byte magic that was compared.
pub const PLAYLIST_RESUME: u64 = 4;

/// `head` holds `magic` at position `at`.
pub open spec fn has_at(head: Seq<u8>, at: int, magic: Seq<u8>) -> bool {
    head.len() >= at + magic.len() && head.subrange(at, at + magic.len()) == magic
}

/// `head` starts with `magic`.
pub open spec fn has_prefix(head: Seq<u8>, magic: Seq<u8>) -> bool {
    has_at(head, 0, magic)
}

/// The Ogg magic bytes, `OggS`.
pub open spec fn ogg_magic() -> Seq<u8> {
    seq![0x4fu8, 0x67u8, 0x67u8, 0x53u8]
}

/// The ID3 tag that starts an MP3 file, `ID3`.
pub open spec fn id3_magic() -> Seq<u8> {
    seq![0x49u8, 0x44u8, 0x33u8]
}

/// The FLAC magic bytes, `fLaC`.
pub open spec fn flac_magic() -> Seq<u8> {
    seq![0x66u8, 0x4cu8, 0x61u8, 0x43u8]
}

/// The RIFF container's magic bytes, `RIFF`.
pub open spec fn riff_magic() -> Seq<u8> {
    seq![0x52u8, 0x49u8, 0x46u8, 0x46u8]
}

/// The RIFF form type of a WAV file, `WAVE`, at byte 8.
pub open spec fn wave_magic() -> Seq<u8> {
    seq![0x57u8, 0x41u8, 0x56u8, 0x45u8]
}

/// `head` is the header of a WAV file: `RIFF`, a four-byte size, then `WAVE`.
pub open spec fn is_wav_header(head: Seq<u8>) -> bool {
    has_prefix(head, riff_magic()) && has_at(head, 8, wave_magic())
}

/// `head` starts with an MPEG audio frame sync: `0xFF` and a byte with its
/// three high bits set.
pub open spec fn is_frame_sync(head: Seq<u8>) -> bool {
    head.len() >= 2 && head[0] == 0xFFu8 && head[1] >= 0xE0u8
}

/// The format of a file that starts with `head` (its first `HEADER_WINDOW`
/// bytes, or all of it if shorter).  The magic bytes are tried in turn (Ogg,
/// ID3, FLAC, WAV, MPEG frame sync), each read from where it stands in the
/// file; reading the first needs four bytes, so a shorter file cannot be told.
/// A file shorter than a WAV header is not a WAV file.
pub open spec fn format_of(head: Seq<u8>) -> Result<FileFormat, HeaderError> {
    if head.len() < 4 {
        Err(HeaderError::TooShort)
    } else if has_prefix(head, ogg_magic()) {
        Ok(FileFormat::Ogg)
    } else if has_prefix(head, id3_magic()) {
        Ok(FileFormat::Mp3)
    } else if has_prefix(head, flac_magic()) {
        Ok(FileFormat::Flac)
    } else if is_wav_header(head) {
        Ok(FileFormat::Wav)
    } else if is_frame_sync(head) {
        Ok(FileFormat::Mp3)
    } else {
        Ok(FileFormat::Other)
    }
}

impl FileFormat {
    /// The file is one of the audio formats.
    pub fn is_audio(&self) -> (r: bool)
        ensures
            r == (*self != FileFormat::Other),
    {
        match self {
            FileFormat::Other => false,
            _ => true,
        }
    }
}

/// `head` holds `magic` at position `at`.
fn matches_at(head: &[u8], at: usize, magic: &[u8]) -> (r: bool)
    ensures
        r == has_at(head@, at as int, magic@),
{
    if head.len() < magic.len() || head.len() - magic.len() < at {
        return false;
    }
    let mut i: usize = 0;
    while i < magic.len()
        invariant
            i <= magic.len(),
            at + magic.len() <= head.len(),
            forall|j: int| 0 <= j < i ==> head@[at + j] == magic@[j],
        decreases magic.len() - i,
    {
        if head[at + i] != magic[i] {
            assert(head@.subrange(at as int, at + magic@.len())[i as int] != magic@[i as int]);
            return false;
        }
        i = i + 1;
    }
    assert(head@.subrange(at as int, at + magic@.len()) =~= magic@);
    true
}

/// The format of a file that starts with `head`, the first `HEADER_WINDOW`
/// bytes of the file (fewer if the file is shorter).
pub fn check_header(head: &[u8]) -> (r: Result<FileFormat, HeaderError>)
    ensures
        r == format_of(head@),
{
    if head.len() < 4 {
        return Err(HeaderError::TooShort);
    }
    let ogg: [u8; 4] = [0x4f, 0x67, 0x67, 0x53];
    let id3: [u8; 3] = [0x49, 0x44, 0x33];
    let flac: [u8; 4] = [0x66, 0x4c, 0x61, 0x43];
    let riff: [u8; 4] = [0x52, 0x49, 0x46, 0x46];
    let wave: [u8; 4] = [0x57, 0x41, 0x56, 0x45];
    assert(ogg@ == ogg_magic());
    assert(id3@ == id3_magic());
    assert(flac@ == flac_magic());
    assert(riff@ == riff_magic());
    assert(wave@ == wave_magic());
    if matches_at(head, 0, &ogg) {
        Ok(FileFormat::Ogg)
    } else if matches_at(head, 0, &id3) {
        Ok(FileFormat::Mp3)
    } else if matches_at(head, 0, &flac) {
        Ok(FileFormat::Flac)
    } else if matches_at(head, 0, &riff) && matches_at(head, 8, &wave) {
        Ok(FileFormat::Wav)
    } else if head[0] == 0xFF && head[1] >= 0xE0 {
        Ok(FileFormat::Mp3)
    } else {
        Ok(FileFormat::Other)
    }
}

/// The format depends on the first `HEADER_WINDOW` bytes alone: two files that
/// agree on them are told the same, whatever follows.
pub proof fn lemma_format_depends_on_window(a: Seq<u8>, b: Seq<u8>)
    requires
        a.len() >= 12,
        b.len() >= 12,
        a.subrange(0, 12) == b.subrange(0, 12),
    ensures
        format_of(a) == format_of(b),
{
    assert forall|i: int| 0 <= i < 12 implies a[i] == b[i] by {
        assert(a.subrange(0, 12)[i] == a[i]);
        assert(b.subrange(0, 12)[i] == b[i]);
    }
    assert(a.subrange(0, 3) =~= b.subrange(0, 3));
    assert(a.subrange(0, 4) =~= b.subrange(0, 4));
    assert(a.subrange(8, 12) =~= b.subrange(8, 12));
}

/// Every WAV file is told as audio: a header of `RIFF`, any four bytes, then
/// `WAVE` gives `Wav`.
pub proof fn lemma_wav_is_audio(head: Seq<u8>)
    requires
        head.len() >= 12,
        head.subrange(0, 4) == riff_magic(),
        head.subrange(8, 12) == wave_magic(),
    ensures
        format_of(head) == Ok::<FileFormat, HeaderError>(FileFormat::Wav),
{
    assert(head[0] == 0x52u8) by {
        assert(head.subrange(0, 4)[0] == head[0]);
    }
    assert(head[1] == 0x49u8) by {
        assert(head.subrange(0, 4)[1] == head[1]);
    }
    assert(head[3] == 0x46u8) by {
        assert(head.subrange(0, 4)[3] == head[3]);
    }
    assert(head.subrange(0, 4) != ogg_magic()) by {
        assert(ogg_magic()[0] == 0x4fu8);
    }
    assert(head.subrange(0, 3) != id3_magic()) by {
        assert(head.subrange(0, 3)[0] == head[0]);
    }
    assert(head.subrange(0, 4) != flac_magic()) by {
        assert(flac_magic()[0] == 0x66u8);
    }
}

/// The magic bytes that were told before WAV was known keep their meaning: a
/// file starting with `OggS`, `ID3` or `fLaC` is told as before.
pub proof fn lemma_first_magics_kept(head: Seq<u8>)
    requires
        head.len() >= 4,
    ensures
        has_prefix(head, ogg_magic()) ==> format_of(head) == Ok::<FileFormat, HeaderError>(FileFormat::Ogg),
        !has_prefix(head, ogg_magic()) && has_prefix(head, id3_magic()) ==> format_of(head) == Ok::<
            FileFormat,
            HeaderError,
        >(FileFormat::Mp3),
        !has_prefix(head, ogg_magic()) && !has_prefix(head, id3_magic()) && has_prefix(
            head,
            flac_magic(),
        ) ==> format_of(head) == Ok::<FileFormat, HeaderError>(FileFormat::Flac),
{
}

} // verus!
