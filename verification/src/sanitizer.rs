use vstd::prelude::*;

use crate::text::{replace_char, replace_char_spec};

verus! {

/// Maps text typed on one keyboard layout so that a keyboard emulating
/// another layout produces the same characters.
pub trait LanguageMapper {
    /// What `sanitize` makes of a string, character by character.
    spec fn sanitized(&self, value: Seq<char>) -> Seq<char>;

    fn sanitize(&self, value: String) -> (r: String)
        ensures
            r@ == self.sanitized(value@),
    ;
}

/// The identity mapping: the host and the emulated keyboard agree.
pub struct AmericanEnglishLanguageMapper;

/// Swaps `y` and `z` (and `Y` and `Z`), the two keys a Swiss German layout
/// exchanges with respect to the US layout.
pub struct SwissGermanLanguageMapper;

/// What the Swiss German mapping makes of one character.
///
/// The swap goes through `_` as a placeholder, so an `_` already present in
/// the input comes out as `y`.
pub open spec fn swiss_german_char(c: char) -> char {
    if c == 'z' {
        'y'
    } else if c == 'y' {
        'z'
    } else if c == '_' {
        'y'
    } else if c == 'Z' {
        'Y'
    } else if c == 'Y' {
        'Z'
    } else {
        c
    }
}

pub open spec fn swiss_german_text(value: Seq<char>) -> Seq<char> {
    value.map_values(|c: char| swiss_german_char(c))
}

impl SwissGermanLanguageMapper {
    pub fn new_boxed() -> (r: Box<SwissGermanLanguageMapper>)
        ensures
            *r == SwissGermanLanguageMapper,
    {
        Box::new(SwissGermanLanguageMapper)
    }
}

impl LanguageMapper for SwissGermanLanguageMapper {
    open spec fn sanitized(&self, value: Seq<char>) -> Seq<char> {
        swiss_german_text(value)
    }

    fn sanitize(&self, value: String) -> (r: String) {
        let a = replace_char(value.as_str(), 'z', '_');
        let b = replace_char(a.as_str(), 'y', 'z');
        let c = replace_char(b.as_str(), '_', 'y');
        let d = replace_char(c.as_str(), 'Z', '_');
        let e = replace_char(d.as_str(), 'Y', 'Z');
        let f = replace_char(e.as_str(), '_', 'Y');
        assert(f@ =~= swiss_german_text(value@));
        f
    }
}

impl LanguageMapper for AmericanEnglishLanguageMapper {
    open spec fn sanitized(&self, value: Seq<char>) -> Seq<char> {
        value
    }

    fn sanitize(&self, value: String) -> (r: String) {
        value
    }
}

/// Both mappings keep the number of characters.
pub proof fn lemma_sanitize_keeps_length(value: Seq<char>)
    ensures
        SwissGermanLanguageMapper.sanitized(value).len() == value.len(),
        AmericanEnglishLanguageMapper.sanitized(value).len() == value.len(),
{
}

/// The Swiss German mapping only exchanges ASCII characters for ASCII
/// characters, so the UTF-8 encoding keeps its length.
pub proof fn lemma_swiss_german_keeps_byte_length(value: Seq<char>)
    ensures
        vstd::utf8::encode_utf8(swiss_german_text(value)).len() == vstd::utf8::encode_utf8(value).len(),
    decreases value.len(),
{
    if value.len() > 0 {
        assert(swiss_german_text(value).drop_first() =~= swiss_german_text(value.drop_first()));
        lemma_swiss_german_keeps_byte_length(value.drop_first());
    }
}

/// Applying the Swiss German mapping twice gives back the original text,
/// provided the text holds no `_` (which the mapping turns into `y`).
pub proof fn lemma_swiss_german_involution(value: Seq<char>)
    requires
        !value.contains('_'),
    ensures
        SwissGermanLanguageMapper.sanitized(SwissGermanLanguageMapper.sanitized(value)) == value,
{
    let once = swiss_german_text(value);
    let twice = swiss_german_text(once);
    assert forall|i: int| 0 <= i < value.len() implies twice[i] == value[i] by {
        if value[i] == '_' {
            assert(value.contains('_'));
        }
    }
    assert(twice =~= value);
}

/// The Swiss German mapping changes only `y`, `z`, `Y`, `Z` and `_`: `y`
/// and `z` swap, `Y` and `Z` swap, `_` becomes `y`, and every other
/// character stays where and what it was.
pub proof fn lemma_swiss_german_changes_only_y_z(value: Seq<char>, i: int)
    requires
        0 <= i < value.len(),
    ensures
        SwissGermanLanguageMapper.sanitized(value).len() == value.len(),
        value[i] != 'y' && value[i] != 'z' && value[i] != 'Y' && value[i] != 'Z' && value[i] != '_'
            ==> SwissGermanLanguageMapper.sanitized(value)[i] == value[i],
        value[i] == 'y' ==> SwissGermanLanguageMapper.sanitized(value)[i] == 'z',
        value[i] == 'z' ==> SwissGermanLanguageMapper.sanitized(value)[i] == 'y',
        value[i] == 'Y' ==> SwissGermanLanguageMapper.sanitized(value)[i] == 'Z',
        value[i] == 'Z' ==> SwissGermanLanguageMapper.sanitized(value)[i] == 'Y',
        value[i] == '_' ==> SwissGermanLanguageMapper.sanitized(value)[i] == 'y',
        AmericanEnglishLanguageMapper.sanitized(value)[i] == value[i],
{
}

} // verus!
