//! Text handling on character sequences: conversion between strings and
//! character vectors, trimming, prefixes, tokens, lines and decimal numbers.
//!
//! Every function here is stated over `Seq<char>`, the view of a string.

use vstd::prelude::*;

verus! {

/// `String::push` appends one character to the end of the string.
pub assume_specification[ String::push ](s: &mut String, c: char)
    ensures
        final(s)@ == old(s)@.push(c),
;

/// The characters of `s`, in order.
pub fn to_chars(s: &str) -> (v: Vec<char>)
    ensures
        v@ == s@,
{
    let mut v: Vec<char> = Vec::new();
    for c in it: s.chars()
        invariant
            v@ == it.seq().take(it.index()),
            it.seq() == s@,
    {
        v.push(c);
    }
    v
}

/// The string made of the characters of `v`, in order.
pub fn from_chars(v: &Vec<char>) -> (s: String)
    ensures
        s@ == v@,
{
    let mut s = String::new();
    let mut i: usize = 0;
    while i < v.len()
        invariant
            i <= v.len(),
            s@ == v@.take(i as int),
        decreases v.len() - i,
    {
        s.push(v[i]);
        proof {
            assert(v@.take(i as int + 1) == v@.take(i as int).push(v@[i as int]));
        }
        i += 1;
    }
    s
}

/// The characters of `v` from position `from` up to, not including, `to`.
pub fn slice_chars(v: &Vec<char>, from: usize, to: usize) -> (out: Vec<char>)
    requires
        from <= to <= v.len(),
    ensures
        out@ == v@.subrange(from as int, to as int),
{
    let mut out: Vec<char> = Vec::new();
    let mut i: usize = from;
    while i < to
        invariant
            from <= i <= to <= v.len(),
            out@ == v@.subrange(from as int, i as int),
        decreases to - i,
    {
        out.push(v[i]);
        proof {
            assert(v@.subrange(from as int, i as int + 1) == v@.subrange(
                from as int,
                i as int,
            ).push(v@[i as int]));
        }
        i += 1;
    }
    out
}

/// Whether `c` is white space: the characters that Unicode gives the
/// property White_Space.
pub open spec fn is_space(c: char) -> bool {
    ||| '\u{9}' <= c <= '\u{d}'
    ||| c == ' '
    ||| c == '\u{85}'
    ||| c == '\u{a0}'
    ||| c == '\u{1680}'
    ||| '\u{2000}' <= c <= '\u{200a}'
    ||| c == '\u{2028}'
    ||| c == '\u{2029}'
    ||| c == '\u{202f}'
    ||| c == '\u{205f}'
    ||| c == '\u{3000}'
}

/// Whether `c` is white space.
pub fn space_char(c: char) -> (b: bool)
    ensures
        b == is_space(c),
{
    (c >= '\u{9}' && c <= '\u{d}') || c == ' ' || c == '\u{85}' || c == '\u{a0}' || c
        == '\u{1680}' || (c >= '\u{2000}' && c <= '\u{200a}') || c == '\u{2028}' || c
        == '\u{2029}' || c == '\u{202f}' || c == '\u{205f}' || c == '\u{3000}'
}

/// A set of characters to trim or to split at.
#[derive(Debug, Clone, Copy)]
pub enum CharClass {
    /// White space, as [`is_space`] has it.
    Space,
    /// One given character.
    Only(char),
    /// Everything but white space.
    NotSpace,
    /// Everything but one given character.
    Except(char),
    /// One of two given characters.
    OneOf(char, char),
    /// Everything but two given characters.
    NoneOf(char, char),
}

impl CharClass {
    /// Whether `c` belongs to the class.
    pub open spec fn has(self, c: char) -> bool {
        match self {
            CharClass::Space => is_space(c),
            CharClass::Only(d) => c == d,
            CharClass::NotSpace => !is_space(c),
            CharClass::Except(d) => c != d,
            CharClass::OneOf(d, e) => c == d || c == e,
            CharClass::NoneOf(d, e) => c != d && c != e,
        }
    }

    /// The class of the characters that are not in this one.
    pub open spec fn inverse(self) -> CharClass {
        match self {
            CharClass::Space => CharClass::NotSpace,
            CharClass::Only(d) => CharClass::Except(d),
            CharClass::NotSpace => CharClass::Space,
            CharClass::Except(d) => CharClass::Only(d),
            CharClass::OneOf(d, e) => CharClass::NoneOf(d, e),
            CharClass::NoneOf(d, e) => CharClass::OneOf(d, e),
        }
    }

    /// The class of the characters that are not in this one.
    pub fn complement(self) -> (other: CharClass)
        ensures
            other == self.inverse(),
            forall|c: char| other.has(c) == !self.has(c),
    {
        match self {
            CharClass::Space => CharClass::NotSpace,
            CharClass::Only(d) => CharClass::Except(d),
            CharClass::NotSpace => CharClass::Space,
            CharClass::Except(d) => CharClass::Only(d),
            CharClass::OneOf(d, e) => CharClass::NoneOf(d, e),
            CharClass::NoneOf(d, e) => CharClass::OneOf(d, e),
        }
    }

    /// Whether `c` belongs to the class.
    pub fn contains(self, c: char) -> (b: bool)
        ensures
            b == self.has(c),
    {
        match self {
            CharClass::Space => space_char(c),
            CharClass::Only(d) => c == d,
            CharClass::NotSpace => !space_char(c),
            CharClass::Except(d) => c != d,
            CharClass::OneOf(d, e) => c == d || c == e,
            CharClass::NoneOf(d, e) => c != d && c != e,
        }
    }
}

/// How many characters at the start of `s` belong to `class`.
pub open spec fn leading(s: Seq<char>, class: CharClass) -> nat
    decreases s.len(),
{
    if s.len() > 0 && class.has(s[0]) {
        1 + leading(s.drop_first(), class)
    } else {
        0
    }
}

/// How many characters at the end of `s` belong to `class`.
pub open spec fn trailing(s: Seq<char>, class: CharClass) -> nat
    decreases s.len(),
{
    if s.len() > 0 && class.has(s.last()) {
        1 + trailing(s.drop_last(), class)
    } else {
        0
    }
}

/// `s` without its leading characters of `class`.
pub open spec fn trim_start_of(s: Seq<char>, class: CharClass) -> Seq<char> {
    s.skip(leading(s, class) as int)
}

/// `s` without its trailing characters of `class`.
pub open spec fn trim_end_of(s: Seq<char>, class: CharClass) -> Seq<char> {
    s.take(s.len() - trailing(s, class))
}

/// `s` without its leading and trailing characters of `class`.
pub open spec fn trim_of(s: Seq<char>, class: CharClass) -> Seq<char> {
    trim_end_of(trim_start_of(s, class), class)
}

/// A run of `n` class characters at the start, followed by the end of the
/// sequence or by a character outside the class, is the leading run.
pub proof fn lemma_leading_is(s: Seq<char>, class: CharClass, n: int)
    requires
        0 <= n <= s.len(),
        forall|i: int| 0 <= i < n ==> class.has(#[trigger] s[i]),
        n < s.len() ==> !class.has(s[n]),
    ensures
        leading(s, class) == n,
    decreases s.len(),
{
    if n > 0 {
        let t = s.drop_first();
        assert forall|i: int| 0 <= i < n - 1 implies class.has(#[trigger] t[i]) by {
            assert(t[i] == s[i + 1]);
        }
        lemma_leading_is(t, class, n - 1);
    }
}

/// A run of `n` class characters at the end, preceded by the start of the
/// sequence or by a character outside the class, is the trailing run.
pub proof fn lemma_trailing_is(s: Seq<char>, class: CharClass, n: int)
    requires
        0 <= n <= s.len(),
        forall|i: int| s.len() - n <= i < s.len() ==> class.has(#[trigger] s[i]),
        n < s.len() ==> !class.has(s[s.len() - n - 1]),
    ensures
        trailing(s, class) == n,
    decreases s.len(),
{
    if n > 0 {
        let t = s.drop_last();
        assert forall|i: int| t.len() - (n - 1) <= i < t.len() implies class.has(
            #[trigger] t[i],
        ) by {
            assert(t[i] == s[i]);
        }
        lemma_trailing_is(t, class, n - 1);
    }
}

/// The position of the first character of `v` at or after `from` that lies
/// outside `class`, or the length of `v` if there is none.
pub fn skip_class(v: &Vec<char>, from: usize, class: CharClass) -> (at: usize)
    requires
        from <= v.len(),
    ensures
        at == from + leading(v@.skip(from as int), class),
        at <= v.len(),
{
    let mut i: usize = from;
    while i < v.len() && class.contains(v[i])
        invariant
            from <= i <= v.len(),
            forall|k: int| from <= k < i ==> class.has(#[trigger] v@[k]),
        decreases v.len() - i,
    {
        i += 1;
    }
    proof {
        let t = v@.skip(from as int);
        assert forall|k: int| 0 <= k < i - from implies class.has(#[trigger] t[k]) by {
            assert(t[k] == v@[k + from]);
        }
        lemma_leading_is(t, class, i - from);
    }
    i
}

/// The position just after the last character of `v` before `to` that lies
/// outside `class`, or 0 if there is none.
pub fn skip_class_back(v: &Vec<char>, to: usize, class: CharClass) -> (at: usize)
    requires
        to <= v.len(),
    ensures
        at == to - trailing(v@.take(to as int), class),
        at <= to,
{
    let mut i: usize = to;
    while i > 0 && class.contains(v[i - 1])
        invariant
            i <= to <= v.len(),
            forall|k: int| i <= k < to ==> class.has(#[trigger] v@[k]),
        decreases i,
    {
        i -= 1;
    }
    proof {
        let t = v@.take(to as int);
        assert forall|k: int| t.len() - (to - i) <= k < t.len() implies class.has(
            #[trigger] t[k],
        ) by {
            assert(t[k] == v@[k]);
        }
        lemma_trailing_is(t, class, to - i);
    }
    i
}

/// `v` without its leading and trailing characters of `class`.
pub fn trim_class(v: &Vec<char>, class: CharClass) -> (out: Vec<char>)
    ensures
        out@ == trim_of(v@, class),
{
    let start = skip_class(v, 0, class);
    let rest = slice_chars(v, start, v.len());
    proof {
        assert(v@.skip(0) == v@);
        assert(rest@ == trim_start_of(v@, class));
    }
    let end = skip_class_back(&rest, rest.len(), class);
    proof {
        assert(rest@.take(rest@.len() as int) == rest@);
    }
    let out = slice_chars(&rest, 0, end);
    out
}

/// `v` without its trailing characters of `class`.
pub fn trim_end_class(v: &Vec<char>, class: CharClass) -> (out: Vec<char>)
    ensures
        out@ == trim_end_of(v@, class),
{
    let end = skip_class_back(v, v.len(), class);
    proof {
        assert(v@.take(v@.len() as int) == v@);
    }
    slice_chars(v, 0, end)
}

} // verus!
