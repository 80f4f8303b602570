use admin_key::sanitizer::{AmericanEnglishLanguageMapper, SwissGermanLanguageMapper};
use admin_key::validation::{character_check, CompiledRegex, Validator, ALLOWED_PATTERN};

#[test]
fn test_too_long_string() {
    let validator = Validator::new(SwissGermanLanguageMapper::new_boxed());

    let input =
        "dhfdskjhdsggfdskfhgasdkjghfjdsghfadshgfjkasghdfadsgasghdfjaghkdsfahfk".to_string();

    let result = validator.validate(input);

    assert_eq!(Err("String is too long".to_owned()), result)
}

#[test]
fn test_invalid_chars() {
    let validator = Validator::new(SwissGermanLanguageMapper::new_boxed());

    let input = "*/".to_string();

    let result = validator.validate(input);

    assert_eq!(
        Err("The string contains invalid characters".to_owned()),
        result
    )
}

#[test]
fn empty_string_is_refused() {
    let validator = Validator::new(SwissGermanLanguageMapper::new_boxed());
    assert_eq!(validator.validate(String::new()), Err("The string is empty".to_owned()));
}

#[test]
fn word_characters_are_accepted_unchanged() {
    let validator = Validator::new(SwissGermanLanguageMapper::new_boxed());
    assert_eq!(validator.validate("abc_XYZ_0123".to_string()), Ok("abc_XYZ_0123".to_string()));
    // \w is Unicode-aware
    assert_eq!(validator.validate("Grüezi".to_string()), Ok("Grüezi".to_string()));
}

#[test]
fn spaces_and_punctuation_are_refused() {
    let validator = Validator::new(SwissGermanLanguageMapper::new_boxed());
    let invalid = Err("The string contains invalid characters".to_owned());
    assert_eq!(validator.validate("two words".to_string()), invalid);
    assert_eq!(validator.validate("abc!".to_string()), invalid);
    assert_eq!(validator.validate("line\n".to_string()), invalid);
}

#[test]
fn length_limit_counts_bytes() {
    let validator = Validator::new(SwissGermanLanguageMapper::new_boxed());
    let exactly = "a".repeat(64);
    assert_eq!(validator.validate(exactly.clone()), Ok(exactly));
    let over = "a".repeat(65);
    assert_eq!(validator.validate(over), Err("String is too long".to_owned()));
    // 33 two-byte characters are 66 bytes
    let wide = "ü".repeat(33);
    assert_eq!(validator.validate(wide), Err("String is too long".to_owned()));
}

#[test]
fn length_is_checked_before_characters() {
    let validator = Validator::new(SwissGermanLanguageMapper::new_boxed());
    assert_eq!(validator.validate("*".repeat(70)), Err("String is too long".to_owned()));
}

#[test]
fn validator_sanitizes_with_its_mapper() {
    let swiss = Validator::new(SwissGermanLanguageMapper::new_boxed());
    assert_eq!(swiss.sanitize("Yaahuz".to_string()), "Zaahuy");
    let us = Validator::new(Box::new(AmericanEnglishLanguageMapper));
    assert_eq!(us.sanitize("Yaahuz".to_string()), "Yaahuz");
}

#[test]
fn compiled_regex_matches() {
    let re = CompiledRegex::compile(ALLOWED_PATTERN).unwrap();
    assert!(re.is_match("abc"));
    assert!(!re.is_match("a b"));
    assert!(!re.is_match(""));
    assert!(CompiledRegex::compile("(unclosed").is_err());
}

#[test]
fn accepted_value_keeps_its_byte_length_when_mapped() {
    let validator = Validator::new(SwissGermanLanguageMapper::new_boxed());
    let value = validator.validate("lazy_Zoo_".repeat(7)).unwrap();
    assert_eq!(value.len(), 63);
    let mapped = validator.sanitize(value.clone());
    assert_eq!(mapped, "layzyYooy".repeat(7));
    assert_eq!(mapped.len(), value.len());
}

#[test]
fn character_check_decides_on_the_match() {
    assert_eq!(character_check("abc".to_string(), true), Ok("abc".to_string()));
    assert_eq!(
        character_check("a b".to_string(), false),
        Err("The string contains invalid characters".to_owned())
    );
}

#[test]
fn mapped_value_stays_valid() {
    let validator = Validator::new(SwissGermanLanguageMapper::new_boxed());
    for v in ["yZ_9", "Grüezi", "zzzz"] {
        let accepted = validator.validate(v.to_string()).unwrap();
        let mapped = validator.sanitize(accepted);
        assert_eq!(validator.validate(mapped.clone()), Ok(mapped));
    }
}
