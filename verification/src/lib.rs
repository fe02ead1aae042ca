//! An owned, growable text buffer with move-only transfer semantics.
//!
//! [`OwnedText`] holds a heap-allocated sequence of characters with exactly
//! one live owner at any time. Assigning it to a new binding, or passing it
//! into a function by value, transfers ownership: the source binding becomes
//! unusable, which the compiler enforces. An explicit [`OwnedText::clone`]
//! produces a second, fully independent instance with its own storage.

use vstd::prelude::*;

verus! {

/// The abstract content that building a text from the literal `s` yields.
pub open spec fn from_literal_spec(s: Seq<char>) -> Seq<char> {
    s
}

/// The abstract content that appending `suffix` to a text holding `content`
/// yields.
pub open spec fn append_spec(content: Seq<char>, suffix: Seq<char>) -> Seq<char> {
    content + suffix
}

/// An owned, growable, mutable sequence of characters.
///
/// A value of this type has exactly one live owner. Plain assignment and
/// passing by value move it: the storage handle is handed over without
/// copying, and the source binding is invalidated at compile time.
pub struct OwnedText {
    chars: Vec<char>,
}

impl View for OwnedText {
    type V = Seq<char>;

    closed spec fn view(&self) -> Seq<char> {
        self.chars@
    }
}

impl OwnedText {
    /// Creates an empty text.
    pub fn new() -> (t: OwnedText)
        ensures
            t@ == Seq::<char>::empty(),
    {
        OwnedText { chars: Vec::new() }
    }

    /// Builds a text whose content is a copy of the characters of `s`.
    pub fn from_literal(s: &str) -> (t: OwnedText)
        ensures
            t@ == from_literal_spec(s@),
            t@.len() == s@.len(),
    {
        let n = s.unicode_len();
        let mut chars: Vec<char> = Vec::new();
        let mut i: usize = 0;
        while i < n
            invariant
                i <= n,
                n == s@.len(),
                chars@ == s@.subrange(0, i as int),
            decreases n - i,
        {
            chars.push(s.get_char(i));
            proof {
                assert(chars@ =~= s@.subrange(0, i + 1 as int));
            }
            i = i + 1;
        }
        proof {
            assert(chars@ =~= s@);
        }
        OwnedText { chars }
    }

    /// The number of characters currently held.
    pub fn length(&self) -> (n: usize)
        ensures
            n == self@.len(),
    {
        self.chars.len()
    }

    /// Extends the text in place with the characters of `suffix`, growing the
    /// buffer as needed. Exclusive access to `self` is required, which the
    /// `&mut` borrow enforces.
    pub fn append(&mut self, suffix: &str)
        ensures
            final(self)@ == append_spec(old(self)@, suffix@),
            final(self)@.len() == old(self)@.len() + suffix@.len(),
    {
        let n = suffix.unicode_len();
        let mut i: usize = 0;
        while i < n
            invariant
                i <= n,
                n == suffix@.len(),
                self.chars@ == old(self)@ + suffix@.subrange(0, i as int),
            decreases n - i,
        {
            self.chars.push(suffix.get_char(i));
            proof {
                assert(self.chars@ =~= old(self)@ + suffix@.subrange(0, i + 1 as int));
            }
            i = i + 1;
        }
        proof {
            assert(self.chars@ =~= old(self)@ + suffix@);
        }
    }

    /// A deep copy: allocates fresh storage and copies the content, leaving
    /// `self` fully valid. Afterwards both instances are independently owned,
    /// and mutating either one leaves the other unchanged.
    pub fn clone(&self) -> (t: OwnedText)
        ensures
            t@ == self@,
    {
        let n = self.chars.len();
        let mut chars: Vec<char> = Vec::new();
        let mut i: usize = 0;
        while i < n
            invariant
                i <= n,
                n == self.chars@.len(),
                chars@ == self.chars@.subrange(0, i as int),
            decreases n - i,
        {
            chars.push(self.chars[i]);
            proof {
                assert(chars@ =~= self.chars@.subrange(0, i + 1 as int));
            }
            i = i + 1;
        }
        proof {
            assert(chars@ =~= self.chars@);
        }
        OwnedText { chars }
    }

    /// The character at position `i`.
    pub fn char_at(&self, i: usize) -> (c: char)
        requires
            i < self@.len(),
        ensures
            c == self@[i as int],
    {
        self.chars[i]
    }

    /// A borrowed view of the characters, for reading the content out.
    pub fn chars(&self) -> (v: &Vec<char>)
        ensures
            v@ == self@,
    {
        &self.chars
    }
}

/// Takes an `OwnedText` by ownership and does not return it: the value is
/// dropped and its storage released when this call ends, and the caller's
/// binding is invalidated at compile time.
pub fn take_ownership(text: OwnedText) {
    let _consumed = text;
}

/// Takes an `OwnedText` by ownership and hands the very same value back:
/// ownership transfers in and out again, and the caller may go on using the
/// returned binding, which holds exactly the original content.
pub fn give_ownership(text: OwnedText) -> (r: OwnedText)
    ensures
        r == text,
        r@ == text@,
{
    text
}

/// Building a text from `s1` and then appending `s2` yields content
/// `s1 + s2`, whose length is the sum of the two lengths.
pub proof fn lemma_append_after_from_literal(s1: Seq<char>, s2: Seq<char>)
    ensures
        append_spec(from_literal_spec(s1), s2) == s1 + s2,
        append_spec(from_literal_spec(s1), s2).len() == s1.len() + s2.len(),
{
}

/// Appending a non-empty suffix to one of two texts that hold the same
/// content `c` changes that text's content and leaves the other's equal to
/// `c`: after a clone, the two instances evolve independently.
pub proof fn lemma_clone_then_append_independent(c: Seq<char>, suffix: Seq<char>)
    requires
        suffix.len() > 0,
    ensures
        append_spec(c, suffix) != c,
        append_spec(c, suffix).len() == c.len() + suffix.len(),
{
    assert(append_spec(c, suffix).len() != c.len());
}

} // verus!
