use vstd::prelude::*;

verus! {

/// The four counts taken from one source, or summed over several.
#[derive(Debug, Clone, Copy, PartialEq, Eq, Structural)]
pub struct FileInfo {
    pub num_lines: usize,
    pub num_words: usize,
    pub num_bytes: usize,
    pub num_chars: usize,
}

/// True when the field-wise sum of `a` and `b` fits in `usize`.
pub open spec fn sum_fits(a: FileInfo, b: FileInfo) -> bool {
    &&& a.num_lines + b.num_lines <= usize::MAX
    &&& a.num_words + b.num_words <= usize::MAX
    &&& a.num_bytes + b.num_bytes <= usize::MAX
    &&& a.num_chars + b.num_chars <= usize::MAX
}

/// True when `r` is the field-wise sum of `a` and `b`.
pub open spec fn is_sum(r: FileInfo, a: FileInfo, b: FileInfo) -> bool {
    &&& r.num_lines == a.num_lines + b.num_lines
    &&& r.num_words == a.num_words + b.num_words
    &&& r.num_bytes == a.num_bytes + b.num_bytes
    &&& r.num_chars == a.num_chars + b.num_chars
}

impl FileInfo {
    /// The record with every count zero.
    pub fn zero() -> (r: FileInfo)
        ensures
            r.num_lines == 0,
            r.num_words == 0,
            r.num_bytes == 0,
            r.num_chars == 0,
    {
        FileInfo { num_lines: 0, num_words: 0, num_bytes: 0, num_chars: 0 }
    }

    /// Whether `self` and `other` can be added without overflow.
    pub fn can_add(&self, other: &FileInfo) -> (r: bool)
        ensures
            r == sum_fits(*self, *other),
    {
        self.num_lines <= usize::MAX - other.num_lines
            && self.num_words <= usize::MAX - other.num_words
            && self.num_bytes <= usize::MAX - other.num_bytes
            && self.num_chars <= usize::MAX - other.num_chars
    }

    /// Field-wise sum.
    pub fn add(&self, other: &FileInfo) -> (r: FileInfo)
        requires
            sum_fits(*self, *other),
        ensures
            is_sum(r, *self, *other),
    {
        FileInfo {
            num_lines: self.num_lines + other.num_lines,
            num_words: self.num_words + other.num_words,
            num_bytes: self.num_bytes + other.num_bytes,
            num_chars: self.num_chars + other.num_chars,
        }
    }
}

} // verus!
