//! Mapping between half-width ASCII punctuation and the full-width forms
//! used in Japanese text.

use vstd::prelude::*;
use crate::engine::text::push_char;

verus! {

/// The full-width counterpart of a half-width punctuation character; every
/// other character, letters and digits among them, is its own counterpart.
pub open spec fn fullwidth_char(c: char) -> char {
    match c {
        '!' => '\u{FF01}',
        '"' => '\u{FF02}',
        '#' => '\u{FF03}',
        '$' => '\u{FF04}',
        '%' => '\u{FF05}',
        '&' => '\u{FF06}',
        '\'' => '\u{FF07}',
        '(' => '\u{FF08}',
        ')' => '\u{FF09}',
        '*' => '\u{FF0A}',
        '+' => '\u{FF0B}',
        ',' => '\u{3001}',
        '-' => '\u{30FC}',
        '.' => '\u{3002}',
        '/' => '\u{FF0F}',
        ':' => '\u{FF1A}',
        ';' => '\u{FF1B}',
        '<' => '\u{FF1C}',
        '=' => '\u{FF1D}',
        '>' => '\u{FF1E}',
        '?' => '\u{FF1F}',
        '@' => '\u{FF20}',
        '[' => '\u{FF3B}',
        '\\' => '\u{FF3C}',
        ']' => '\u{FF3D}',
        '^' => '\u{FF3E}',
        '_' => '\u{FF3F}',
        '`' => '\u{FF40}',
        '{' => '\u{FF5B}',
        '|' => '\u{FF5C}',
        '}' => '\u{FF5D}',
        '~' => '\u{FF5E}',
        _ => c,
    }
}

/// A text with every character replaced by its full-width counterpart.
pub open spec fn fullwidth_text(s: Seq<char>) -> Seq<char> {
    Seq::new(s.len(), |i: int| fullwidth_char(s[i]))
}

fn fullwidth_of(c: char) -> (r: char)
    ensures
        r == fullwidth_char(c),
{
    match c {
        '!' => '\u{FF01}',
        '"' => '\u{FF02}',
        '#' => '\u{FF03}',
        '$' => '\u{FF04}',
        '%' => '\u{FF05}',
        '&' => '\u{FF06}',
        '\'' => '\u{FF07}',
        '(' => '\u{FF08}',
        ')' => '\u{FF09}',
        '*' => '\u{FF0A}',
        '+' => '\u{FF0B}',
        ',' => '\u{3001}',
        '-' => '\u{30FC}',
        '.' => '\u{3002}',
        '/' => '\u{FF0F}',
        ':' => '\u{FF1A}',
        ';' => '\u{FF1B}',
        '<' => '\u{FF1C}',
        '=' => '\u{FF1D}',
        '>' => '\u{FF1E}',
        '?' => '\u{FF1F}',
        '@' => '\u{FF20}',
        '[' => '\u{FF3B}',
        '\\' => '\u{FF3C}',
        ']' => '\u{FF3D}',
        '^' => '\u{FF3E}',
        '_' => '\u{FF3F}',
        '`' => '\u{FF40}',
        '{' => '\u{FF5B}',
        '|' => '\u{FF5C}',
        '}' => '\u{FF5D}',
        '~' => '\u{FF5E}',
        _ => c,
    }
}

/// Replaces half-width punctuation by its full-width form, character by
/// character, and leaves everything else as it is.
pub fn to_fullwidth(s: &str) -> (r: String)
    ensures
        r@ == fullwidth_text(s@),
{
    let mut out = String::new();
    for c in it: s.chars()
        invariant
            it.seq() == s@,
            out@ == fullwidth_text(s@.subrange(0, it.index())),
    {
        push_char(&mut out, fullwidth_of(c));
        assert(out@ =~= fullwidth_text(s@.subrange(0, it.index() + 1)));
    }
    assert(s@.subrange(0, s@.len() as int) =~= s@);
    out
}

/// The first and the last of the full-width small Latin letters.
pub const FULLWIDTH_SMALL_A: char = '\u{FF41}';

pub const FULLWIDTH_SMALL_Z: char = '\u{FF5A}';

/// How far a full-width letter lies from its half-width form.
pub const FULLWIDTH_OFFSET: u32 = 0xFEE0;

/// The half-width form of a full-width small Latin letter; every other
/// character, full-width punctuation among them, is left alone.
pub open spec fn halfwidth_char(c: char) -> char {
    if FULLWIDTH_SMALL_A <= c <= FULLWIDTH_SMALL_Z {
        (c as u32 - FULLWIDTH_OFFSET) as char
    } else {
        c
    }
}

/// A text with every character replaced by its half-width form.
pub open spec fn halfwidth_text(s: Seq<char>) -> Seq<char> {
    Seq::new(s.len(), |i: int| halfwidth_char(s[i]))
}

fn halfwidth_of(c: char) -> (r: char)
    ensures
        r == halfwidth_char(c),
{
    if FULLWIDTH_SMALL_A <= c && c <= FULLWIDTH_SMALL_Z {
        let code: u32 = c as u32 - FULLWIDTH_OFFSET;
        (code as u8) as char
    } else {
        c
    }
}

/// Replaces full-width small Latin letters by their half-width form,
/// character by character, and leaves everything else as it is.
pub fn to_halfwidth(s: &str) -> (r: String)
    ensures
        r@ == halfwidth_text(s@),
{
    let mut out = String::new();
    for c in it: s.chars()
        invariant
            it.seq() == s@,
            out@ == halfwidth_text(s@.subrange(0, it.index())),
    {
        push_char(&mut out, halfwidth_of(c));
        assert(out@ =~= halfwidth_text(s@.subrange(0, it.index() + 1)));
    }
    assert(s@.subrange(0, s@.len() as int) =~= s@);
    out
}

/// Whether a character is an ASCII letter or digit.
pub open spec fn is_ascii_alphanumeric(c: char) -> bool {
    ||| '0' <= c <= '9'
    ||| 'A' <= c <= 'Z'
    ||| 'a' <= c <= 'z'
}

/// Letters and digits have no full-width form here: they pass through.
pub proof fn lemma_fullwidth_keeps_alphanumerics(c: char)
    requires
        is_ascii_alphanumeric(c),
    ensures
        fullwidth_char(c) == c,
{
}

/// Only ASCII characters are changed, and what they are changed to is never
/// ASCII.
pub proof fn lemma_fullwidth_leaves_ascii(c: char)
    ensures
        fullwidth_char(c) != c ==> c as u32 <= 0x7F && fullwidth_char(c) as u32 > 0x7F,
{
}

/// The two directions are not inverse to each other: going to half width
/// does not undo full-width punctuation, and going to full width does not
/// produce the letters that going to half width undoes.
pub proof fn lemma_widths_are_asymmetric(c: char)
    ensures
        halfwidth_char(fullwidth_char(c)) == fullwidth_char(c) || FULLWIDTH_SMALL_A <= c
            <= FULLWIDTH_SMALL_Z,
        halfwidth_char(c) != c ==> fullwidth_char(halfwidth_char(c)) == halfwidth_char(c),
{
}

/// Both mappings work character by character: lengths are kept, and
/// the image of a concatenation is the concatenation of the images.
pub proof fn lemma_widths_are_pointwise(s: Seq<char>, t: Seq<char>)
    ensures
        fullwidth_text(s).len() == s.len(),
        halfwidth_text(s).len() == s.len(),
        fullwidth_text(s + t) == fullwidth_text(s) + fullwidth_text(t),
        halfwidth_text(s + t) == halfwidth_text(s) + halfwidth_text(t),
{
    assert(fullwidth_text(s + t) =~= fullwidth_text(s) + fullwidth_text(t));
    assert(halfwidth_text(s + t) =~= halfwidth_text(s) + halfwidth_text(t));
}

} // verus!
