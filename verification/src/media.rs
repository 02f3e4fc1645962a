//! File kinds, Base64 and JSON members.

use base64::Engine;
use vstd::prelude::*;
use vstd::slice::slice_subrange;

verus! {

/// What is known of a file from its contents.
#[derive(Debug)]
pub struct FileKind {
    pub mime_type: String,
    pub extension: String,
}

impl View for FileKind {
    type V = (Seq<char>, Seq<char>);

    open spec fn view(&self) -> (Seq<char>, Seq<char>) {
        (self.mime_type@, self.extension@)
    }
}

/// The MIME type and the file extension that the signature of `data` stands for, where it is known.
pub uninterp spec fn inferred_kind(data: Seq<u8>) -> Option<(Seq<char>, Seq<char>)>;

/// The view of an optional file kind.
pub open spec fn kind_view(kind: Option<FileKind>) -> Option<(Seq<char>, Seq<char>)> {
    match kind {
        Some(known) => Some(known@),
        None => None,
    }
}

/// The most skippable Zstandard frames in a row at the start of data that are searched as a whole.
pub const MAX_SKIPPABLE_FRAMES: usize = 256;

/// The four bytes from position `at` as a little-endian number.
pub open spec fn word_at(data: Seq<u8>, at: int) -> int {
    data[at] + 0x100 * data[at + 1] + 0x10000 * data[at + 2] + 0x100_0000 * data[at + 3]
}

/// Whether the header of a skippable Zstandard frame stands at position `at`: one of sixteen magic
/// numbers, then the length of what follows.
pub open spec fn skippable_at(data: Seq<u8>, at: int) -> bool {
    &&& 0 <= at <= data.len() - 8
    &&& 0x50 <= data[at] <= 0x5F
    &&& data[at + 1] == 0x2A
    &&& data[at + 2] == 0x4D
    &&& data[at + 3] == 0x18
}

/// Where the skippable frame at position `at` ends.
pub open spec fn frame_end(data: Seq<u8>, at: int) -> int {
    at + 8 + word_at(data, at + 4)
}

/// Whether a skippable frame stands at position `at` and lies wholly in the data.
pub open spec fn whole_frame_at(data: Seq<u8>, at: int) -> bool {
    skippable_at(data, at) && frame_end(data, at) <= data.len()
}

/// Whether at most `frames` whole skippable frames follow one another from position `at`, and the
/// size of each frame met is a `usize`.
pub open spec fn few_frames(data: Seq<u8>, at: int, frames: nat) -> bool
    decreases frames,
{
    skippable_at(data, at) ==> {
        &&& frame_end(data, at) - at <= usize::MAX
        &&& whole_frame_at(data, at) ==> frames > 0 && few_frames(
            data,
            frame_end(data, at),
            (frames - 1) as nat,
        )
    }
}

/// Where the whole skippable frames from position `at` end, `frames` of them at most.
pub open spec fn row_end(data: Seq<u8>, at: int, frames: nat) -> int
    decreases frames,
{
    if frames > 0 && whole_frame_at(data, at) {
        row_end(data, frame_end(data, at), (frames - 1) as nat)
    } else {
        at
    }
}

/// Whether a Zstandard frame starts at position `at`.
pub open spec fn zstandard_at(data: Seq<u8>, at: int) -> bool {
    &&& 0 <= at <= data.len() - 4
    &&& data[at] == 0x28
    &&& data[at + 1] == 0xB5
    &&& data[at + 2] == 0x2F
    &&& data[at + 3] == 0xFD
}

/// Whether the whole skippable frames from position `at`, however many, lead to a Zstandard frame.
pub open spec fn leads_to_zstandard(data: Seq<u8>, at: int) -> bool
    decreases data.len() - at,
{
    zstandard_at(data, at) || (whole_frame_at(data, at) && leads_to_zstandard(
        data,
        frame_end(data, at),
    ))
}

/// Whether the stretch that is searched in a ZIP archive for its second entry ends at a position
/// that is a `usize`. It starts 49 bytes behind the size of the first entry, where that sum is a
/// `u32`, and is 6000 bytes long.
pub open spec fn zip_search_fits(data: Seq<u8>) -> bool {
    data.len() >= 22 && data[0] == 0x50 && data[1] == 0x4B && data[2] == 3 && data[3] == 4 ==> {
        ||| word_at(data, 18) + 49 > u32::MAX
        ||| word_at(data, 18) + 49 + 6000 <= usize::MAX
    }
}

/// Whether the data can be searched for the signature of a kind.
pub open spec fn can_be_inferred(data: Seq<u8>) -> bool {
    few_frames(data, 0, MAX_SKIPPABLE_FRAMES as nat) && zip_search_fits(data)
}

fn word(data: &[u8], at: usize) -> (number: u64)
    requires
        at + 4 <= data@.len(),
    ensures
        number == word_at(data@, at as int),
        number <= u32::MAX,
{
    data[at] as u64 + 0x100 * data[at + 1] as u64 + 0x10000 * data[at + 2] as u64 + 0x100_0000
        * data[at + 3] as u64
}

fn frame_header(data: &[u8], at: usize) -> (found: bool)
    requires
        at <= data@.len(),
    ensures
        found == skippable_at(data@, at as int),
{
    data.len() - at >= 8 && 0x50 <= data[at] && data[at] <= 0x5F && data[at + 1] == 0x2A && data[at
        + 2] == 0x4D && data[at + 3] == 0x18
}

fn searches_archive_safely(data: &[u8]) -> (safe: bool)
    ensures
        safe == zip_search_fits(data@),
{
    if data.len() >= 22 && data[0] == 0x50 && data[1] == 0x4B && data[2] == 3 && data[3] == 4 {
        let start: u64 = word(data, 18) + 49;
        start > u32::MAX as u64 || start + 6000 <= usize::MAX as u64
    } else {
        true
    }
}

/// Where the row of skippable frames at the start of the data is to be cut, if it is too long to be
/// searched.
fn long_row(data: &[u8]) -> (end: Option<usize>)
    ensures
        match end {
            None => few_frames(data@, 0, MAX_SKIPPABLE_FRAMES as nat),
            Some(end) => {
                &&& !few_frames(data@, 0, MAX_SKIPPABLE_FRAMES as nat)
                &&& end == row_end(data@, 0, MAX_SKIPPABLE_FRAMES as nat)
                &&& end <= data@.len()
            },
        },
{
    let n: usize = data.len();
    let mut at: usize = 0;
    let mut left: usize = MAX_SKIPPABLE_FRAMES;
    loop
        invariant
            n == data@.len(),
            at <= n,
            few_frames(data@, 0, MAX_SKIPPABLE_FRAMES as nat) == few_frames(
                data@,
                at as int,
                left as nat,
            ),
            row_end(data@, 0, MAX_SKIPPABLE_FRAMES as nat) == row_end(
                data@,
                at as int,
                left as nat,
            ),
        decreases left,
    {
        if !frame_header(data, at) {
            return None;
        }
        let size: u64 = 8 + word(data, at + 4);
        if size > usize::MAX as u64 {
            return Some(at);
        }
        if size > (n - at) as u64 {
            return None;
        }
        if left == 0 {
            return Some(at);
        }
        at = at + size as usize;
        left = left - 1;
    }
}

/// Follows the skippable frames at the start of the data to their end.
fn finds_zstandard(data: &[u8]) -> (found: bool)
    ensures
        found == leads_to_zstandard(data@, 0),
{
    let n: usize = data.len();
    let mut at: usize = 0;
    loop
        invariant
            n == data@.len(),
            at <= n,
            leads_to_zstandard(data@, 0) == leads_to_zstandard(data@, at as int),
        decreases n - at,
    {
        if n - at >= 4 && data[at] == 0x28 && data[at + 1] == 0xB5 && data[at + 2] == 0x2F
            && data[at + 3] == 0xFD {
            return true;
        }
        if !frame_header(data, at) {
            return false;
        }
        let size: u64 = 8 + word(data, at + 4);
        if size > (n - at) as u64 {
            return false;
        }
        at = at + size as usize;
    }
}

proof fn lemma_row_end_in_data(data: Seq<u8>, at: int, frames: nat)
    requires
        0 <= at <= data.len(),
    ensures
        at <= row_end(data, at, frames) <= data.len(),
    decreases frames,
{
    if frames > 0 && whole_frame_at(data, at) {
        lemma_row_end_in_data(data, frame_end(data, at), (frames - 1) as nat);
    }
}

/// Cut off at the end of its first frames, the row is no longer too long.
proof fn lemma_cut_row_is_short(data: Seq<u8>, at: int, frames: nat)
    requires
        0 <= at <= data.len() <= usize::MAX,
    ensures
        few_frames(data.take(row_end(data, at, frames)), at, frames),
    decreases frames,
{
    let end = row_end(data, at, frames);
    let part = data.take(end);
    lemma_row_end_in_data(data, at, frames);
    if frames > 0 && whole_frame_at(data, at) {
        let next = frame_end(data, at);
        lemma_row_end_in_data(data, next, (frames - 1) as nat);
        lemma_cut_row_is_short(data, next, (frames - 1) as nat);
        assert(word_at(part, at + 4) == word_at(data, at + 4));
    }
}

/// `infer::get` matches the signatures in a fixed table against the data; `mime_type` and
/// `extension` read the entry found. The result depends on the data alone. Left out are data that
/// start with a long row of skippable Zstandard frames, which are walked by recursion, one call a
/// frame, and sizes whose unguarded sums do not fit in a `usize`. A compound document is read into
/// memory, which has to be there, as for any allocation.
#[verifier::external_body]
fn infer_kind(data: &[u8]) -> (kind: Option<FileKind>)
    requires
        can_be_inferred(data@),
    ensures
        kind_view(kind) == inferred_kind(data@),
{
    infer::get(data).map(
        |entry|
            FileKind {
                mime_type: entry.mime_type().to_string(),
                extension: entry.extension().to_string(),
            },
    )
}

/// What the contents of a file are recognised as.
#[derive(Debug)]
pub enum Recognition {
    /// A file of that kind.
    Kind(FileKind),
    /// Zstandard data behind a long row of skippable frames.
    Zstandard,
    /// Nothing that is known.
    Unknown,
}

impl View for Recognition {
    type V = Option<Option<(Seq<char>, Seq<char>)>>;

    open spec fn view(&self) -> Option<Option<(Seq<char>, Seq<char>)>> {
        match self {
            Recognition::Kind(kind) => Some(Some(kind@)),
            Recognition::Zstandard => Some(None),
            Recognition::Unknown => None,
        }
    }
}

/// The recognition that a kind stands for, known or not.
pub open spec fn kind_recognition(kind: Option<(Seq<char>, Seq<char>)>) -> Option<
    Option<(Seq<char>, Seq<char>)>,
> {
    match kind {
        Some(known) => Some(Some(known)),
        None => None,
    }
}

/// What data are recognised as: nothing, a Zstandard archive, or a file of some kind. Data that
/// start with a long row of skippable frames are recognised by the first frames of the row, where
/// every signature but that of Zstandard would stand, and else by what the row leads to.
pub open spec fn recognised(data: Seq<u8>) -> Option<Option<(Seq<char>, Seq<char>)>> {
    let few = few_frames(data, 0, MAX_SKIPPABLE_FRAMES as nat);
    let part = data.take(row_end(data, 0, MAX_SKIPPABLE_FRAMES as nat));
    if !zip_search_fits(data) {
        None
    } else if few {
        kind_recognition(inferred_kind(data))
    } else if inferred_kind(part) is Some {
        kind_recognition(inferred_kind(part))
    } else if leads_to_zstandard(data, 0) {
        Some(None)
    } else {
        None
    }
}

/// Recognises the contents of a file.
pub fn recognise(data: &[u8]) -> (recognition: Recognition)
    ensures
        recognition@ == recognised(data@),
{
    if !searches_archive_safely(data) {
        return Recognition::Unknown;
    }
    let cut = long_row(data);
    let kind = match cut {
        None => infer_kind(data),
        Some(end) => {
            let part = slice_subrange(data, 0, end);
            let n: usize = data.len();
            proof {
                assert(data@.len() == n);
                assert(part@ =~= data@.take(end as int));
                lemma_cut_row_is_short(data@, 0, MAX_SKIPPABLE_FRAMES as nat);
                if part@.len() >= 22 {
                    assert(word_at(part@, 18) == word_at(data@, 18));
                }
            }
            infer_kind(part)
        },
    };
    match kind {
        Some(known) => Recognition::Kind(known),
        None => if cut.is_some() && finds_zstandard(data) {
            Recognition::Zstandard
        } else {
            Recognition::Unknown
        },
    }
}

/// The character that stands for the six bits `n` in the standard Base64 alphabet.
pub open spec fn base64_digit(n: int) -> char {
    if n < 26 {
        ('A' as int + n) as char
    } else if n < 52 {
        ('a' as int + n - 26) as char
    } else if n < 62 {
        ('0' as int + n - 52) as char
    } else if n == 62 {
        '+'
    } else {
        '/'
    }
}

/// The byte at position `i`, or zero past the end.
pub open spec fn byte_or_zero(data: Seq<u8>, i: int) -> int {
    if i < data.len() {
        data[i] as int
    } else {
        0
    }
}

/// Character `i` of the padded Base64 form of `data`: every three bytes are read as 24 bits and
/// written as four digits; digits that would hold no bit of `data` are padding.
pub open spec fn base64_char(data: Seq<u8>, i: int) -> char {
    let first = 3 * (i / 4);
    let bits = byte_or_zero(data, first) * 0x10000 + byte_or_zero(data, first + 1) * 0x100
        + byte_or_zero(data, first + 2);
    if i % 4 == 0 {
        base64_digit(bits / 0x40000)
    } else if i % 4 == 1 {
        base64_digit(bits / 0x1000 % 64)
    } else if i % 4 == 2 {
        if first + 1 < data.len() {
            base64_digit(bits / 64 % 64)
        } else {
            '='
        }
    } else {
        if first + 2 < data.len() {
            base64_digit(bits % 64)
        } else {
            '='
        }
    }
}

/// The padded Base64 form of `data` in the standard alphabet.
pub open spec fn base64_text(data: Seq<u8>) -> Seq<char> {
    Seq::new(4 * ((data.len() + 2) / 3), |i: int| base64_char(data, i))
}

/// `base64::engine::general_purpose::STANDARD.encode` writes bytes in Base64 with the standard
/// alphabet and padding. The result must fit in a `String`.
#[verifier::external_body]
pub(crate) fn base64_encode(data: &[u8]) -> (text: String)
    requires
        4 * ((data@.len() + 2) / 3) <= isize::MAX,
    ensures
        text@ == base64_text(data@),
{
    base64::engine::general_purpose::STANDARD.encode(data)
}

/// The error type of the JSON parser.
#[verifier::external_type_specification]
#[verifier::external_body]
pub struct ExJsonError(serde_json::Error);

/// What the JSON document `body` holds under `key`: nothing where `body` is not JSON, otherwise
/// the text of that member where `body` is an object that has it and it is a string.
pub uninterp spec fn json_text_member(body: Seq<u8>, key: Seq<char>) -> Option<Option<Seq<char>>>;

/// `serde_json::from_slice` parses a document, indexing the value by a key gives the member of
/// that name or null, and `as_str` gives the text of a string. The outcome depends on the two
/// arguments alone.
#[verifier::external_body]
pub(crate) fn json_member(body: &[u8], key: &str) -> (member: Result<
    Option<String>,
    serde_json::Error,
>)
    ensures
        match member {
            Err(_) => json_text_member(body@, key@) == None::<Option<Seq<char>>>,
            Ok(None) => json_text_member(body@, key@) == Some(None::<Seq<char>>),
            Ok(Some(text)) => json_text_member(body@, key@) == Some(Some(text@)),
        },
{
    let document: serde_json::Value = serde_json::from_slice(body)?;
    Ok(document[key].as_str().map(String::from))
}

/// Data of whatever length are recognised by their signature and by nothing else: as the kind that
/// it stands for, or not at all. Left to other laws are data that start with a skippable Zstandard
/// frame, and archives whose first entry is nearly as long as a 32-bit number allows.
pub proof fn law_signature_tells_the_kind(data: Seq<u8>)
    requires
        data.len() < 8 || !(0x50 <= data[0] <= 0x5F && data[1] == 0x2A && data[2] == 0x4D && data[3]
            == 0x18),
        data.len() < 22 || !(data[0] == 0x50 && data[1] == 0x4B && data[2] == 3 && data[3] == 4)
            || data[18] + 0x100 * data[19] + 0x10000 * data[20] + 0x100_0000 * data[21]
            <= 0xFFFF_FFFF - 6049,
    ensures
        inferred_kind(data) matches Some(kind) ==> recognised(data) == Some(Some(kind)),
        inferred_kind(data) is None ==> recognised(data) is None,
        can_be_inferred(data),
{
}

/// Wherever the data can be searched, the signature decides.
pub proof fn law_searched_data_are_told_by_signature(data: Seq<u8>)
    requires
        can_be_inferred(data),
    ensures
        inferred_kind(data) matches Some(kind) ==> recognised(data) == Some(Some(kind)),
        inferred_kind(data) is None ==> recognised(data) is None,
{
}

proof fn lemma_frames_behind(whole: Seq<u8>, offset: int, data: Seq<u8>, at: int, frames: nat)
    requires
        0 <= offset <= whole.len(),
        whole.skip(offset) == data,
        0 <= at <= data.len(),
    ensures
        few_frames(whole, offset + at, frames) == few_frames(data, at, frames),
    decreases frames,
{
    assert forall|i: int| 0 <= i < data.len() implies whole[offset + i] == data[i] by {
        assert(whole.skip(offset)[i] == whole[offset + i]);
    }
    if skippable_at(data, at) {
        assert(word_at(whole, offset + at + 4) == word_at(data, at + 4));
        if whole_frame_at(data, at) && frames > 0 {
            lemma_frames_behind(whole, offset, data, frame_end(data, at), (frames - 1) as nat);
        }
    }
}

proof fn lemma_row_behind(whole: Seq<u8>, offset: int, data: Seq<u8>, at: int)
    requires
        0 <= offset <= whole.len(),
        whole.skip(offset) == data,
        0 <= at <= data.len(),
    ensures
        leads_to_zstandard(whole, offset + at) == leads_to_zstandard(data, at),
    decreases data.len() - at,
{
    assert forall|i: int| 0 <= i < data.len() implies whole[offset + i] == data[i] by {
        assert(whole.skip(offset)[i] == whole[offset + i]);
    }
    if skippable_at(data, at) {
        assert(word_at(whole, offset + at + 4) == word_at(data, at + 4));
        if whole_frame_at(data, at) {
            lemma_row_behind(whole, offset, data, frame_end(data, at));
        }
    }
}

/// A skippable frame put before data adds one to the row of frames, and what the row leads to stays
/// the same.
pub proof fn law_skippable_frame_is_skipped(
    header: Seq<u8>,
    content: Seq<u8>,
    data: Seq<u8>,
    frames: nat,
)
    requires
        header.len() == 8,
        0x50 <= header[0] <= 0x5F,
        header[1] == 0x2A,
        header[2] == 0x4D,
        header[3] == 0x18,
        content.len() == header[4] + 0x100 * header[5] + 0x10000 * header[6] + 0x100_0000
            * header[7],
        8 + content.len() <= usize::MAX,
    ensures
        leads_to_zstandard(header + content + data, 0) == leads_to_zstandard(data, 0),
        few_frames(header + content + data, 0, frames + 1) == few_frames(data, 0, frames),
{
    let whole = header + content + data;
    let offset = 8 + content.len() as int;
    assert(whole.skip(offset) =~= data);
    assert(whole[0] == header[0] && whole[1] == header[1] && whole[2] == header[2] && whole[3]
        == header[3]);
    assert(word_at(whole, 4) == content.len());
    assert(frame_end(whole, 0) == offset);
    lemma_row_behind(whole, offset, data, 0);
    lemma_frames_behind(whole, offset, data, 0, frames);
}

/// What a row leads to is Zstandard where the magic number of a Zstandard frame stands there, and
/// nothing where no frame of either sort starts there.
pub proof fn law_row_ends_at_its_last_frame(data: Seq<u8>)
    ensures
        data.len() >= 4 && data[0] == 0x28 && data[1] == 0xB5 && data[2] == 0x2F && data[3] == 0xFD
            ==> leads_to_zstandard(data, 0),
        data.len() < 4 ==> !leads_to_zstandard(data, 0),
        data.len() >= 4 && !(data[0] == 0x28 && data[1] == 0xB5 && data[2] == 0x2F && data[3]
            == 0xFD) && !(0x50 <= data[0] <= 0x5F && data[1] == 0x2A && data[2] == 0x4D && data[3]
            == 0x18) ==> !leads_to_zstandard(data, 0),
{
}

/// A row of frames that is too long to be searched is recognised where it leads to Zstandard, and
/// where it does not, only by a signature in its first frames.
pub proof fn law_long_row_is_recognised(data: Seq<u8>)
    requires
        !few_frames(data, 0, 256),
    ensures
        leads_to_zstandard(data, 0) ==> recognised(data) is Some,
        !leads_to_zstandard(data, 0) && inferred_kind(
            data.take(row_end(data, 0, 256)),
        ) is None ==> recognised(data) is None,
        inferred_kind(data.take(row_end(data, 0, 256))) matches Some(kind) ==> recognised(data)
            == Some(Some(kind)),
{
}

} // verus!
