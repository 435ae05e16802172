//! Text helpers: the offset of the first separating space in a
//! string, and a buffer that stamps every derived offset with a
//! version so that an offset computed before a mutation is refused
//! afterwards instead of being applied silently.

use vstd::prelude::*;
use vstd::string::StrSliceExecFns;

verus! {

/// `r` is the position of the first space in `s`, or `s.len()` when
/// `s` holds no space.
pub open spec fn is_first_space(s: Seq<char>, r: int) -> bool {
    &&& 0 <= r <= s.len()
    &&& forall|i: int| 0 <= i < r ==> s[i] != ' '
    &&& r < s.len() ==> s[r] == ' '
}

/// At most one position satisfies [`is_first_space`] for a given
/// string.
pub proof fn lemma_first_space_unique(s: Seq<char>, a: int, b: int)
    requires
        is_first_space(s, a),
        is_first_space(s, b),
    ensures
        a == b,
{
    if a < b {
        assert(s[a] == ' ');
        assert(s[a] != ' ');
    }
    if b < a {
        assert(s[b] == ' ');
        assert(s[b] != ' ');
    }
}

/// Returns the offset of the first space character in `s`, or the
/// length of `s` when it holds none.
pub fn first_word(s: &String) -> (offset: usize)
    ensures
        is_first_space(s@, offset as int),
{
    let text = s.as_str();
    let n = text.unicode_len();
    let mut i: usize = 0;
    while i < n
        invariant
            text@ == s@,
            n == s@.len(),
            0 <= i <= n,
            forall|j: int| 0 <= j < i ==> s@[j] != ' ',
        decreases n - i,
    {
        if text.get_char(i) == ' ' {
            return i;
        }
        i = i + 1;
    }
    n
}

/// Returns the number of characters in `s`, leaving `s` with its
/// caller.
pub fn calculate_length(s: &String) -> (len: usize)
    ensures
        len == s@.len(),
{
    s.as_str().unicode_len()
}

/// Why applying a derived offset was refused.
#[derive(Debug, Clone, Copy, PartialEq, Eq, Structural)]
pub enum OffsetError {
    /// The buffer was mutated after the offset was computed.
    Stale,
}

/// An offset derived from a buffer's contents, stamped with the
/// buffer version it was computed at.
pub struct WordOffset {
    offset: usize,
    version: u64,
}

impl WordOffset {
    /// The derived offset itself.
    pub closed spec fn value(&self) -> usize {
        self.offset
    }

    /// The buffer version the offset was computed at.
    pub closed spec fn version(&self) -> u64 {
        self.version
    }
}

/// An owned text buffer with a version counter that every mutation
/// advances, so a [`WordOffset`] can be checked for staleness before
/// it is used.
pub struct TextBuffer {
    text: String,
    version: u64,
}

impl TextBuffer {
    /// The characters currently in the buffer.
    pub closed spec fn contents(&self) -> Seq<char> {
        self.text@
    }

    /// The current version; it only moves forward.
    pub closed spec fn version(&self) -> u64 {
        self.version
    }

    /// Takes ownership of the initial text; the version starts at 0.
    pub fn new(text: String) -> (buffer: TextBuffer)
        ensures
            buffer.contents() == text@,
            buffer.version() == 0,
    {
        TextBuffer { text, version: 0 }
    }

    /// Reads the current text.
    pub fn text(&self) -> (text: &String)
        ensures
            text@ == self.contents(),
    {
        &self.text
    }

    /// Computes the first-space offset of the current contents and
    /// stamps it with the current version.
    pub fn first_word_offset(&self) -> (w: WordOffset)
        ensures
            is_first_space(self.contents(), w.value() as int),
            w.version() == self.version(),
    {
        WordOffset { offset: first_word(&self.text), version: self.version }
    }

    /// Replaces the contents, releasing the previous text; every
    /// offset computed before this call becomes stale.
    pub fn set_text(&mut self, text: String)
        requires
            old(self).version() < u64::MAX,
        ensures
            final(self).contents() == text@,
            final(self).version() == old(self).version() + 1,
    {
        self.text = text;
        self.version = self.version + 1;
    }

    /// Empties the buffer; every offset computed before this call
    /// becomes stale.
    pub fn clear(&mut self)
        requires
            old(self).version() < u64::MAX,
        ensures
            final(self).contents() == Seq::<char>::empty(),
            final(self).version() == old(self).version() + 1,
    {
        self.text = String::new();
        self.version = self.version + 1;
    }

    /// Applies a derived offset to the buffer: returns its value
    /// exactly when the buffer has not been mutated since the offset
    /// was computed, and refuses it as stale otherwise.
    pub fn checked_offset(&self, w: &WordOffset) -> (r: Result<usize, OffsetError>)
        ensures
            w.version() == self.version() ==> r == Ok::<usize, OffsetError>(w.value()),
            w.version() != self.version() ==> r == Err::<usize, OffsetError>(OffsetError::Stale),
    {
        if w.version == self.version {
            Ok(w.offset)
        } else {
            Err(OffsetError::Stale)
        }
    }
}

} // verus!
