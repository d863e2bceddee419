//! Reading a PCM wav file: the RIFF header, the format chunk and the data
//! chunk.
use vstd::prelude::*;

verus! {

/// The size of the header of a wav file: the RIFF chunk header, the format
/// tag and the format chunk.
pub const WAV_HEADER_SIZE: usize = 36;

/// The little-endian number in the two bytes from `i`.
pub open spec fn le_u16(b: Seq<u8>, i: int) -> int {
    b[i] + b[i + 1] * 0x100
}

/// The little-endian number in the four bytes from `i`.
pub open spec fn le_u32(b: Seq<u8>, i: int) -> int {
    b[i] + b[i + 1] * 0x100 + b[i + 2] * 0x1_0000 + b[i + 3] * 0x100_0000
}

/// Whether the four bytes from `i` are `tag`.
pub open spec fn tag_at(b: Seq<u8>, i: int, tag: Seq<u8>) -> bool {
    b.subrange(i, i + 4) == tag
}

/// "RIFF" in ASCII.
pub open spec fn riff_tag() -> Seq<u8> {
    seq![0x52u8, 0x49, 0x46, 0x46]
}

/// "WAVE" in ASCII.
pub open spec fn wave_tag() -> Seq<u8> {
    seq![0x57u8, 0x41, 0x56, 0x45]
}

/// "fmt " in ASCII.
pub open spec fn fmt_tag() -> Seq<u8> {
    seq![0x66u8, 0x6d, 0x74, 0x20]
}

/// "data" in ASCII.
pub open spec fn data_tag() -> Seq<u8> {
    seq![0x64u8, 0x61, 0x74, 0x61]
}

/// The size that the RIFF chunk header gives.
pub open spec fn riff_size(b: Seq<u8>) -> int {
    le_u32(b, 4)
}

/// The first position from `i` on, within the first `limit` bytes, where
/// "data" starts; `limit` when there is none.
pub open spec fn find_tag_from(b: Seq<u8>, limit: int, i: int) -> int
    decreases limit - i,
{
    if i < 0 || i + 4 > limit {
        limit
    } else if tag_at(b, i, data_tag()) {
        i
    } else {
        find_tag_from(b, limit, i + 1)
    }
}

proof fn lemma_find_tag_from_bound(b: Seq<u8>, limit: int, i: int)
    requires
        0 <= i,
    ensures
        find_tag_from(b, limit, i) == limit || (i <= find_tag_from(b, limit, i) && find_tag_from(b, limit, i)
            + 4 <= limit && tag_at(b, find_tag_from(b, limit, i), data_tag())),
    decreases limit - i,
{
    if i + 4 <= limit && !tag_at(b, i, data_tag()) {
        lemma_find_tag_from_bound(b, limit, i + 1);
    }
}

/// The error that a wav file's header gives, if any.
pub open spec fn header_error(b: Seq<u8>) -> Option<&'static str> {
    if !tag_at(b, 0, riff_tag()) {
        Some("Unexpected file chunk id")
    } else if !tag_at(b, 8, wave_tag()) {
        Some("Unexpected format")
    } else if !tag_at(b, 12, fmt_tag()) {
        Some("Unexpected fmt_chunk_header id")
    } else {
        None
    }
}

/// A wav file: the format of its samples and the bytes of its data chunk,
/// from the chunk's id on.
pub struct WavFile {
    pub num_of_channels: u16,
    pub sample_rate: u32,
    pub bits_per_sample: u16,
    pub data: std::vec::Vec<u8>,
}

/// Whether the four bytes of `b` from `i` equal those of `tag`.
fn has_tag(b: &[u8], i: usize, tag: &[u8; 4]) -> (r: bool)
    requires
        i + 4 <= b@.len(),
    ensures
        r == tag_at(b@, i as int, tag@),
{
    let r = b[i] == tag[0] && b[i + 1] == tag[1] && b[i + 2] == tag[2] && b[i + 3] == tag[3];
    assert(r == (b@.subrange(i as int, i + 4) =~= tag@));
    r
}

/// Checks the tags of a wav file's header.
fn validate_header(b: &[u8]) -> (r: Result<(), &'static str>)
    requires
        b@.len() >= WAV_HEADER_SIZE,
    ensures
        r matches Err(e) ==> header_error(b@) == Some(e),
        r is Ok ==> header_error(b@) is None,
{
    let riff: [u8; 4] = [0x52, 0x49, 0x46, 0x46];
    let wave: [u8; 4] = [0x57, 0x41, 0x56, 0x45];
    let fmt: [u8; 4] = [0x66, 0x6d, 0x74, 0x20];
    assert(riff@ == riff_tag());
    assert(wave@ == wave_tag());
    assert(fmt@ == fmt_tag());
    if !has_tag(b, 0, &riff) {
        return Err("Unexpected file chunk id");
    }
    if !has_tag(b, 8, &wave) {
        return Err("Unexpected format");
    }
    if !has_tag(b, 12, &fmt) {
        return Err("Unexpected fmt_chunk_header id");
    }
    Ok(())
}

/// The position of the first "data" within the number of bytes that the
/// RIFF header gives, or `None`.
fn find_data_chunk(b: &[u8]) -> (r: Option<usize>)
    requires
        b@.len() >= 8,
        riff_size(b@) <= b@.len(),
    ensures
        r is None ==> find_tag_from(b@, riff_size(b@), 0) == riff_size(b@),
        r matches Some(p) ==> p == find_tag_from(b@, riff_size(b@), 0) && p < riff_size(b@),
{
    let size = (b[4] as u32 + (b[5] as u32) * 0x100 + (b[6] as u32) * 0x1_0000 + (b[7] as u32) * 0x100_0000) as usize;
    let data: [u8; 4] = [0x64, 0x61, 0x74, 0x61];
    assert(data@ == data_tag());
    let mut i: usize = 0;
    while size - i >= 4
        invariant
            size == riff_size(b@),
            size <= b@.len(),
            i <= size,
            data@ == data_tag(),
            find_tag_from(b@, size as int, i as int) == find_tag_from(b@, size as int, 0),
        decreases size - i,
    {
        if has_tag(b, i, &data) {
            return Some(i);
        }
        i = i + 1;
    }
    proof {
        lemma_find_tag_from_bound(b@, size as int, i as int);
    }
    None
}

} // verus!

verus! {

/// The position of the data chunk, when the RIFF chunk holds one.
pub open spec fn data_chunk_pos(b: Seq<u8>) -> int {
    find_tag_from(b, riff_size(b), 0)
}

/// Whether the header, the RIFF chunk and the data chunk that the file
/// describes lie within its bytes.
pub open spec fn wav_complete(b: Seq<u8>) -> bool {
    &&& b.len() >= WAV_HEADER_SIZE
    &&& header_error(b) is None ==> {
        &&& riff_size(b) <= b.len()
        &&& data_chunk_pos(b) < riff_size(b) ==> data_chunk_pos(b) + 8 <= b.len() && data_chunk_pos(b) + le_u32(
            b,
            data_chunk_pos(b) + 4,
        ) <= b.len()
    }
}

/// The bytes of `b` from `start` up to `end`.
fn copy_bytes(b: &[u8], start: usize, end: usize) -> (r: std::vec::Vec<u8>)
    requires
        start <= end <= b@.len(),
    ensures
        r@ == b@.subrange(start as int, end as int),
{
    let mut out: std::vec::Vec<u8> = std::vec::Vec::new();
    let mut i = start;
    while i < end
        invariant
            start <= i <= end <= b@.len(),
            out@ == b@.subrange(start as int, i as int),
        decreases end - i,
    {
        out.push(b[i]);
        i = i + 1;
        assert(out@ =~= b@.subrange(start as int, i as int));
    }
    out
}

impl WavFile {
    /// The wav file in `file`: an error when a tag of the header is wrong or
    /// the RIFF chunk holds no "data"; else the format from the header and the
    /// bytes of the data chunk, as many as its header gives, from its id on.
    pub fn from(file: &[u8]) -> (r: Result<WavFile, &'static str>)
        requires
            wav_complete(file@),
        ensures
            header_error(file@) matches Some(e) ==> r == Err::<WavFile, &'static str>(e),
            header_error(file@) is None && data_chunk_pos(file@) >= riff_size(file@) ==> r == Err::<
                WavFile,
                &'static str,
            >("Couldn't find the data chunk"),
            header_error(file@) is None && data_chunk_pos(file@) < riff_size(file@) ==> (r matches Ok(w) && {
                let p = data_chunk_pos(file@);
                &&& w.num_of_channels == le_u16(file@, 22)
                &&& w.sample_rate == le_u32(file@, 24)
                &&& w.bits_per_sample == le_u16(file@, 34)
                &&& w.data@ == file@.subrange(p, p + le_u32(file@, p + 4))
            }),
    {
        match validate_header(file) {
            Ok(()) => {},
            Err(e) => {
                return Err(e);
            },
        }
        let pos = match find_data_chunk(file) {
            Some(p) => p,
            None => {
                return Err("Couldn't find the data chunk");
            },
        };
        assert(header_error(file@) is None);
        assert(pos == data_chunk_pos(file@));
        assert(pos + 8 <= file@.len());
        assert(file@.len() == file.len());
        let size = (file[pos + 4] as u32 + (file[pos + 5] as u32) * 0x100 + (file[pos + 6] as u32) * 0x1_0000
            + (file[pos + 7] as u32) * 0x100_0000) as usize;
        assert(file@.len() == file.len());
        let data = copy_bytes(file, pos, pos + size);
        let num_of_channels = file[22] as u16 + (file[23] as u16) * 0x100;
        let sample_rate = file[24] as u32 + (file[25] as u32) * 0x100 + (file[26] as u32) * 0x1_0000 + (
        file[27] as u32) * 0x100_0000;
        let bits_per_sample = file[34] as u16 + (file[35] as u16) * 0x100;
        Ok(WavFile { num_of_channels, sample_rate, bits_per_sample, data })
    }

    /// The number of samples per second.
    pub fn sample_rate(&self) -> (r: u32)
        ensures
            r == self.sample_rate,
    {
        self.sample_rate
    }

    /// The number of channels.
    pub fn num_of_channels(&self) -> (r: u16)
        ensures
            r == self.num_of_channels,
    {
        self.num_of_channels
    }

    /// The number of bits of a sample.
    pub fn bits_per_sample(&self) -> (r: u16)
        ensures
            r == self.bits_per_sample,
    {
        self.bits_per_sample
    }
}

} // verus!
