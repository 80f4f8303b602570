use vstd::prelude::*;

use regex::Regex;

use crate::sanitizer::{lemma_swiss_german_keeps_byte_length, swiss_german_text, LanguageMapper};

verus! {

#[verifier::external_type_specification]
#[verifier::external_body]
pub struct ExRegex(regex::Regex);

#[verifier::external_type_specification]
#[verifier::external_body]
pub struct ExRegexError(regex::Error);

/// Whether the regular expression compiled by `regex::Regex::new` from
/// `pattern` finds a match in `haystack` (`regex::Regex::is_match`).
pub uninterp spec fn regex_is_match(pattern: Seq<char>, haystack: Seq<char>) -> bool;

/// Whether `regex::Regex::new` accepts `pattern` (valid syntax, within the
/// default size limit).
pub uninterp spec fn regex_compiles(pattern: Seq<char>) -> bool;

/// Whether a character outside ASCII belongs to the regex crate's Unicode
/// word class `\w` (Alphabetic, marks, decimal digits, connector
/// punctuation, Join_Control).
pub uninterp spec fn unicode_word_char(c: char) -> bool;

/// Whether `c` is a word character, given whether it is one in case it lies
/// beyond ASCII: in ASCII the word characters are exactly `[0-9A-Za-z_]`.
pub open spec fn word_char_given(c: char, beyond_ascii: bool) -> bool {
    if c <= '\u{7f}' {
        ||| ('0' <= c && c <= '9')
        ||| ('A' <= c && c <= 'Z')
        ||| ('a' <= c && c <= 'z')
        ||| c == '_'
    } else {
        beyond_ascii
    }
}

/// Whether `c` is a word character `\w` of the regex crate.
pub open spec fn is_word_char(c: char) -> bool {
    word_char_given(c, unicode_word_char(c))
}

/// Whether `s` is one or more word characters and nothing else: what the
/// allowed-characters pattern matches.
pub open spec fn all_word_chars(s: Seq<char>) -> bool {
    s.len() > 0 && forall|i: int| 0 <= i < s.len() ==> #[trigger] is_word_char(s[i])
}

/// A compiled regular expression together with the pattern it was compiled
/// from. Its only constructor is `compile`, so the two always agree.
pub struct CompiledRegex {
    source: String,
    regex: Regex,
}

impl View for CompiledRegex {
    type V = Seq<char>;

    closed spec fn view(&self) -> Seq<char> {
        self.source@
    }
}

impl CompiledRegex {
    /// Compiles `pattern` with `regex::Regex::new`.
    ///
    /// Trusted: success depends on the pattern alone (named
    /// `regex_compiles`); on success the value keeps `pattern` as its source.
    /// The allowed-characters pattern `^[\w\d]+$` compiles: its syntax is
    /// valid, and a single Unicode class repeated is far below the default
    /// size limit (the crate's docs show only counted repetitions such as
    /// `\w{1000}` exceeding it).
    #[verifier::external_body]
    pub fn compile(pattern: &str) -> (r: Result<CompiledRegex, regex::Error>)
        ensures
            r is Ok <==> regex_compiles(pattern@),
            r matches Ok(c) ==> c@ == pattern@,
            pattern@ == ALLOWED_PATTERN@ ==> r is Ok,
    {
        match Regex::new(pattern) {
            Ok(regex) => Ok(CompiledRegex { source: pattern.to_owned(), regex }),
            Err(e) => Err(e),
        }
    }

    /// `regex::Regex::is_match`: whether the regex matches anywhere in
    /// `haystack`.
    ///
    /// Trusted: the answer is named `regex_is_match` of the source pattern
    /// and the haystack. For the allowed-characters pattern `^[\w\d]+$` it
    /// is stated: `^` and `$` anchor at the start and end of the haystack,
    /// `\d` lies inside `\w`, so it matches exactly the non-empty strings of
    /// word characters (the crate's documented classes).
    #[verifier::external_body]
    pub fn is_match(&self, haystack: &str) -> (b: bool)
        ensures
            b == regex_is_match(self@, haystack@),
            self@ == ALLOWED_PATTERN@ ==> (b <==> (haystack@.len() > 0 && forall|i: int|
                0 <= i < haystack@.len() ==> #[trigger] word_char_given(
                    haystack@[i],
                    unicode_word_char(haystack@[i]),
                ))),
    {
        self.regex.is_match(haystack)
    }
}

/// The pattern a value must match: one or more word characters or digits,
/// and nothing else (`all_word_chars`).
pub const ALLOWED_PATTERN: &'static str = r"^[\w\d]+$";

/// The longest value accepted, in UTF-8 bytes.
pub const MAX_VALUE_BYTES: usize = 64;

pub const TOO_LONG_MESSAGE: &'static str = "String is too long";

pub const EMPTY_MESSAGE: &'static str = "The string is empty";

pub const INVALID_CHARS_MESSAGE: &'static str = "The string contains invalid characters";

/// Length of a string in UTF-8 bytes, as `str::len` returns it.
pub open spec fn byte_len(value: Seq<char>) -> usize {
    vstd::utf8::encode_utf8(value).len() as usize
}

/// What `Validator::validate` answers for `value`: `Ok` with the value
/// itself, or `Err` with the message of the first check that fails.
pub open spec fn validation_outcome(value: Seq<char>) -> Result<Seq<char>, Seq<char>> {
    if byte_len(value) > MAX_VALUE_BYTES {
        Err(TOO_LONG_MESSAGE@)
    } else if byte_len(value) == 0 {
        Err(EMPTY_MESSAGE@)
    } else {
        character_outcome(value, all_word_chars(value))
    }
}

/// The answer once the length is known to be right: the value if it is
/// made of allowed characters, the invalid-characters error if not.
pub open spec fn character_outcome(value: Seq<char>, allowed: bool) -> Result<Seq<char>, Seq<char>> {
    if allowed {
        Ok(value)
    } else {
        Err(INVALID_CHARS_MESSAGE@)
    }
}

/// Decides on a value of the right length from whether the pattern matched
/// it.
pub fn character_check(value: String, matched: bool) -> (r: Result<String, String>)
    ensures
        result_view(r) == character_outcome(value@, matched),
{
    if !matched {
        return Err(INVALID_CHARS_MESSAGE.to_owned());
    }
    Ok(value)
}

/// A value the validator accepts is still accepted once mapped to the Swiss
/// German layout: the mapping keeps its length in bytes and turns word
/// characters into word characters.
pub proof fn lemma_accepted_value_stays_accepted_after_mapping(value: Seq<char>)
    requires
        validation_outcome(value) is Ok,
    ensures
        byte_len(swiss_german_text(value)) == byte_len(value),
        validation_outcome(swiss_german_text(value)) == Ok::<Seq<char>, Seq<char>>(swiss_german_text(value)),
{
    lemma_swiss_german_keeps_byte_length(value);
    let mapped = swiss_german_text(value);
    assert(all_word_chars(value));
    assert forall|i: int| 0 <= i < mapped.len() implies #[trigger] is_word_char(mapped[i]) by {
        assert(is_word_char(value[i]));
    }
}

pub open spec fn result_view(r: Result<String, String>) -> Result<Seq<char>, Seq<char>> {
    match r {
        Ok(v) => Ok(v@),
        Err(e) => Err(e@),
    }
}

/// Checks values before they are typed and maps them to the target
/// keyboard layout.
pub struct Validator<M: LanguageMapper> {
    regex: CompiledRegex,
    language_mapper: Box<M>,
}

impl<M: LanguageMapper> Validator<M> {
    #[verifier::type_invariant]
    closed spec fn inv(self) -> bool {
        self.regex@ == ALLOWED_PATTERN@
    }

    /// The layout mapping the validator applies.
    pub closed spec fn language_mapper(&self) -> M {
        *self.language_mapper
    }

    /// Builds a validator that maps values with `language_mapper`.
    pub fn new(language_mapper: Box<M>) -> (r: Self)
        ensures
            r.language_mapper() == *language_mapper,
    {
        let regex = match CompiledRegex::compile(ALLOWED_PATTERN) {
            Ok(regex) => regex,
            Err(_) => vstd::pervasive::unreached(),
        };
        Validator { regex, language_mapper }
    }

    /// Accepts a value of 1 to 64 UTF-8 bytes made only of word characters;
    /// otherwise says which check failed first.
    pub fn validate(&self, value: String) -> (r: Result<String, String>)
        ensures
            result_view(r) == validation_outcome(value@),
    {
        proof {
            use_type_invariant(self);
        }
        let len: usize = value.as_str().len();
        if len > MAX_VALUE_BYTES {
            return Err(TOO_LONG_MESSAGE.to_owned());
        }
        if len == 0 {
            return Err(EMPTY_MESSAGE.to_owned());
        }
        let matched = self.regex.is_match(value.as_str());
        assert(matched == all_word_chars(value@)) by {
            if matched {
                assert forall|i: int| 0 <= i < value@.len() implies #[trigger] is_word_char(value@[i]) by {
                    assert(word_char_given(value@[i], unicode_word_char(value@[i])));
                }
            } else if all_word_chars(value@) {
                assert forall|i: int| 0 <= i < value@.len() implies #[trigger] word_char_given(
                    value@[i],
                    unicode_word_char(value@[i]),
                ) by {
                    assert(is_word_char(value@[i]));
                }
            }
        }
        character_check(value, matched)
    }

    /// Maps `value` to the target keyboard layout.
    pub fn sanitize(&self, value: String) -> (r: String)
        ensures
            r@ == self.language_mapper().sanitized(value@),
    {
        self.language_mapper.sanitize(value)
    }
}

/// Exactly the values of 1 to 64 UTF-8 bytes made only of word characters
/// are accepted, and an accepted value comes back unchanged. In particular
/// every value of 1 to 64 ASCII letters, digits and underscores is
/// accepted, wherever its digits stand.
pub proof fn lemma_validation_accepts_word_strings(value: Seq<char>)
    ensures
        (validation_outcome(value) is Ok) <==> (0 < byte_len(value) <= 64 && value.len() > 0 && forall|i: int|
            0 <= i < value.len() ==> #[trigger] is_word_char(value[i])),
        validation_outcome(value) matches Ok(v) ==> v == value,
        (0 < value.len() <= 64 && forall|i: int|
            0 <= i < value.len() ==> ('0' <= #[trigger] value[i] <= '9' || 'a' <= value[i] <= 'z' || 'A'
                <= value[i] <= 'Z' || value[i] == '_')) ==> validation_outcome(value) == Ok::<
            Seq<char>,
            Seq<char>,
        >(value),
{
    if 0 < value.len() <= 64 && forall|i: int|
        0 <= i < value.len() ==> ('0' <= #[trigger] value[i] <= '9' || 'a' <= value[i] <= 'z' || 'A'
            <= value[i] <= 'Z' || value[i] == '_') {
        assert(vstd::utf8::is_ascii_chars(value)) by {
            assert forall|i: int| 0 <= i < value.len() implies '\0' <= #[trigger] value[i] <= '\u{7f}' by {
                assert('0' <= value[i] <= '9' || 'a' <= value[i] <= 'z' || 'A' <= value[i] <= 'Z' || value[i] == '_');
            }
        }
        vstd::utf8::is_ascii_chars_encode_utf8(value);
        assert forall|i: int| 0 <= i < value.len() implies #[trigger] is_word_char(value[i]) by {
            assert('0' <= value[i] <= '9' || 'a' <= value[i] <= 'z' || 'A' <= value[i] <= 'Z' || value[i] == '_');
        }
    }
}

} // verus!
