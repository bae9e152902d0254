use vstd::prelude::*;
use vstd::utf8::*;
use vstd::string::*;

use crate::record::FileInfo;

verus! {

/// Whitespace separating words: space, tab, newline, vertical tab,
/// form feed and carriage return.
pub open spec fn is_space(b: u8) -> bool {
    b == 0x20u8 || (0x09u8 <= b && b <= 0x0du8)
}

/// Number of newline bytes in `c`.
pub open spec fn lines_of(c: Seq<u8>) -> nat
    decreases c.len(),
{
    if c.len() == 0 {
        0
    } else {
        lines_of(c.drop_last()) + if c.last() == 0x0au8 { 1nat } else { 0nat }
    }
}

/// True when a word begins at position `i`: a non-space byte that is the
/// first byte of `c` or follows a space.
pub open spec fn starts_word(c: Seq<u8>, i: int) -> bool {
    !is_space(c[i]) && (i == 0 || is_space(c[i - 1]))
}

/// Number of maximal runs of non-space bytes in `c`, each counted at its
/// first byte.
pub open spec fn words_of(c: Seq<u8>) -> nat
    decreases c.len(),
{
    if c.len() == 0 {
        0
    } else {
        words_of(c.drop_last()) + if starts_word(c, c.len() - 1) { 1nat } else { 0nat }
    }
}

/// Whitespace test on one byte.
pub fn is_space_byte(b: u8) -> (r: bool)
    ensures
        r == is_space(b),
{
    b == 0x20u8 || (0x09u8 <= b && b <= 0x0du8)
}

/// Number of characters that `c` decodes to as UTF-8.
pub open spec fn chars_of(c: Seq<u8>) -> nat {
    decode_utf8(c).len()
}

/// Why a source's content could not be counted.
#[derive(Debug, Clone, Copy, PartialEq, Eq, Structural)]
pub enum ReadFailure {
    /// The content is not valid UTF-8.
    InvalidEncoding,
}

/// True when `info` holds the counts of content `c`.
pub open spec fn counts_of(info: FileInfo, c: Seq<u8>) -> bool {
    &&& info.num_lines == lines_of(c)
    &&& info.num_words == words_of(c)
    &&& info.num_bytes == c.len()
    &&& info.num_chars == chars_of(c)
}

/// What counting content `c` yields: its counts when it is valid UTF-8,
/// else an encoding failure.
pub open spec fn count_outcome(c: Seq<u8>, r: Result<FileInfo, ReadFailure>) -> bool {
    &&& (r is Ok <==> valid_utf8(c))
    &&& match r {
        Ok(info) => counts_of(info, c),
        Err(e) => e == ReadFailure::InvalidEncoding,
    }
}

/// Relies on std::str::from_utf8: it accepts exactly the valid UTF-8 slices
/// and returns a string over the same bytes.
#[verifier::external_body]
fn decode(bytes: &[u8]) -> (r: Option<&str>)
    ensures
        r is Some <==> valid_utf8(bytes@),
        r matches Some(s) ==> s.spec_bytes() == bytes@,
{
    std::str::from_utf8(bytes).ok()
}

/// Counts lines, words, bytes and characters of `content` in one scan.
/// A line is counted at each newline byte, so a last line without one adds
/// no line. Content that is not valid UTF-8 is refused.
pub fn count(content: &[u8]) -> (r: Result<FileInfo, ReadFailure>)
    ensures
        count_outcome(content@, r),
{
    let n = content.len();
    let mut i: usize = 0;
    let mut lines: usize = 0;
    let mut words: usize = 0;
    while i < n
        invariant
            n == content@.len(),
            i <= n,
            lines <= i,
            words <= i,
            lines == lines_of(content@.subrange(0, i as int)),
            words == words_of(content@.subrange(0, i as int)),
        decreases n - i,
    {
        let b = content[i];
        if b == 0x0au8 {
            lines = lines + 1;
        }
        if !is_space_byte(b) && (i == 0 || is_space_byte(content[i - 1])) {
            words = words + 1;
        }
        proof {
            let s = content@.subrange(0, i + 1);
            assert(s.drop_last() =~= content@.subrange(0, i as int));
        }
        i = i + 1;
    }
    proof {
        assert(content@.subrange(0, n as int) =~= content@);
    }
    match decode(content) {
        None => Err(ReadFailure::InvalidEncoding),
        Some(text) => {
            let chars = text.unicode_len();
            proof {
                encode_utf8_decode_utf8(text@);
            }
            Ok(FileInfo { num_lines: lines, num_words: words, num_bytes: n, num_chars: chars })
        },
    }
}

/// ASCII content is valid UTF-8 and decodes to one character per byte.
proof fn lemma_ascii_decodes_bytewise(c: Seq<u8>)
    requires
        forall|i: int| 0 <= i < c.len() ==> c[i] <= 0x7fu8,
    ensures
        valid_utf8(c),
        decode_utf8(c).len() == c.len(),
    decreases c.len(),
{
    if c.len() > 0 {
        let b = c[0];
        assert(b & 0x7fu8 <= 0x7fu8) by (bit_vector);
        assert(valid_first_scalar(c));
        assert(length_of_first_scalar(c) == 1);
        let rest = pop_first_scalar(c);
        assert(rest =~= c.subrange(1, c.len() as int));
        lemma_ascii_decodes_bytewise(rest);
    }
}

/// Counting is a function of the content: any two results that `count`
/// may return for the same content are equal.
pub proof fn lemma_count_deterministic(
    c: Seq<u8>,
    r1: Result<FileInfo, ReadFailure>,
    r2: Result<FileInfo, ReadFailure>,
)
    requires
        count_outcome(c, r1),
        count_outcome(c, r2),
    ensures
        r1 == r2,
{
}

/// Content made only of single-byte characters is always counted, and its
/// character count equals its byte count.
pub proof fn lemma_ascii_chars_equal_bytes(c: Seq<u8>, r: Result<FileInfo, ReadFailure>)
    requires
        forall|i: int| 0 <= i < c.len() ==> c[i] <= 0x7fu8,
        count_outcome(c, r),
    ensures
        r is Ok,
        r->Ok_0.num_chars == r->Ok_0.num_bytes,
{
    lemma_ascii_decodes_bytewise(c);
}

} // verus!
