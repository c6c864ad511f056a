use validated_values::username::{UserName, UserNameError};

#[test]
fn main_test_good() {
    assert!(UserName::try_new("HelloWorldIAmTim".to_string()).is_ok());
    assert!(UserName::try_new("HelloWorld123141IAmTim".to_string()).is_ok());
    assert!(UserName::try_new("HelloWorld.....IAmTim".to_string()).is_ok());
}

#[test]
fn main_test_bad() {
    assert!(UserName::try_new("test".to_string()).is_err());
    assert!(UserName::try_new("?testhallowkfahfla".to_string()).is_err());
    assert!(
        UserName::try_new("halloweltichbindertimundichhasselangeusernames".to_string()).is_err()
    );
    assert!(UserName::try_new("test!%$/".to_string()).is_err());
}

#[test]
fn test_correct_errors() {
    assert_eq!(
        UserName::try_new("test".to_string()).unwrap_err(),
        UserNameError::TooShort
    );

    assert_eq!(
        UserName::try_new("?testhallowkfahfla".to_string()).unwrap_err(),
        UserNameError::InvalidCharacter('?')
    );

    assert_eq!(
        UserName::try_new("halloweltichbindertimundichhasselangeusernames".to_string())
            .unwrap_err(),
        UserNameError::TooLong
    );

    assert_eq!(
        UserName::try_new("test!%$/".to_string()).unwrap_err(),
        UserNameError::TooShort
    );
}

#[test]
fn test_length_boundaries() {
    // Exactly 12 characters: the lower bound is inclusive.
    let twelve = "abcdefghijkl".to_string();
    assert_eq!(twelve.chars().count(), 12);
    assert!(UserName::try_new(twelve).is_ok());

    // Exactly 11 characters: one short of the bound.
    let eleven = "abcdefghijk".to_string();
    assert_eq!(eleven.chars().count(), 11);
    assert_eq!(
        UserName::try_new(eleven).unwrap_err(),
        UserNameError::TooShort
    );

    // Exactly 31 characters: the largest accepted length.
    let thirty_one = "abcdefghijklmnopqrstuvwxyzabcde".to_string();
    assert_eq!(thirty_one.chars().count(), 31);
    assert!(UserName::try_new(thirty_one).is_ok());

    // Exactly 32 characters: the upper bound is exclusive.
    let thirty_two = "abcdefghijklmnopqrstuvwxyzabcdef".to_string();
    assert_eq!(thirty_two.chars().count(), 32);
    assert_eq!(
        UserName::try_new(thirty_two).unwrap_err(),
        UserNameError::TooLong
    );
}

#[test]
fn test_each_forbidden_character() {
    for c in ['!', '\u{00A7}', '$', '%', '&', '/', '(', ')', '=', '?'] {
        let raw = format!("abcdefgh{}ijklmnop", c);
        assert_eq!(
            UserName::try_new(raw).unwrap_err(),
            UserNameError::InvalidCharacter(c)
        );
    }
}

#[test]
fn test_first_forbidden_character_reported() {
    // Both '!' and '?' occur; the leftmost one is the reason reported.
    assert_eq!(
        UserName::try_new("abcdefghij!?klmnop".to_string()).unwrap_err(),
        UserNameError::InvalidCharacter('!')
    );
}

#[test]
fn test_length_counts_characters_not_bytes() {
    // Twelve two-byte characters: 24 bytes, but 12 characters, so accepted.
    let raw = "\u{00E4}".repeat(12);
    assert_eq!(raw.len(), 24);
    assert_eq!(raw.chars().count(), 12);
    assert!(UserName::try_new(raw).is_ok());
}

#[test]
fn test_revalidate_username() {
    let name = UserName::try_new("HelloWorldIAmTim".to_string()).unwrap();
    let again = UserName::try_new(name.get().to_string()).unwrap();
    assert_eq!(name.get(), again.get());
}

#[test]
fn test_accepted_text_unchanged() {
    let name = UserName::try_new("  spaces stay .".to_string()).unwrap();
    assert_eq!(name.get(), "  spaces stay .");
}
