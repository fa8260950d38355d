use simple_password_generator::{ClipboardError, CompositionCodes, GenerationError, PasswordGenerator};

#[test]
fn generates_password_to_expected_length() {
    let expected_length = 16;
    let result = PasswordGenerator::new()
        .length(expected_length)
        .generate()
        .unwrap();

    assert_eq!(expected_length as usize, result.chars().count());
}

#[test]
fn generates_password_with_no_lowercase() {
    let test_password = PasswordGenerator::new()
        .uppercase_only(true)
        .generate()
        .unwrap();
    let mut contains_lowercase = false;

    for c in test_password.chars() {
        if c.is_alphabetic() {
            if c.is_lowercase() {
                contains_lowercase = true
            }
        }
    }

    assert_eq!(false, contains_lowercase);
}

#[test]
fn generates_password_with_no_numbers() {
    let test_password = PasswordGenerator::new()
        .exclude_numbers(true)
        .generate()
        .unwrap();
    let mut contains_numbers = false;

    for c in test_password.chars() {
        if c.is_numeric() {
            contains_numbers = true
        }
    }

    assert_eq!(false, contains_numbers);
}

#[test]
fn generates_password_with_no_uppercase() {
    let test_password = PasswordGenerator::new()
        .lowercase_only(true)
        .generate()
        .unwrap();
    let mut contains_uppercase = false;

    for c in test_password.chars() {
        if c.is_alphabetic() {
            if c.is_uppercase() {
                contains_uppercase = true
            }
        }
    }

    assert_eq!(false, contains_uppercase);
}

#[test]
fn generates_password_with_special_chars() {
    let test_password = PasswordGenerator::new()
        .exclude_special_chars(true)
        .generate()
        .unwrap();
    let spec_char_set: Vec<char> = vec!['!', '@', '#', '$', '%', '^', '&', '*', '(', ')', '~'];
    let mut contains_special_chars = false;

    for c in test_password.chars() {
        if spec_char_set.contains(&c) {
            contains_special_chars = true;
        }
    }

    assert_eq!(false, contains_special_chars);
}

#[test]
fn generates_password_for_each_length_up_to_max() {
    for length in [0u8, 1, 2, 7, 8, 16, 100, 254, 255] {
        let result = PasswordGenerator::new().length(length).generate().unwrap();
        assert_eq!(length as usize, result.chars().count());
    }
}

#[test]
fn default_configuration_generates_eight_chars() {
    let result = PasswordGenerator::new().generate().unwrap();
    assert_eq!(8, result.chars().count());
}

#[test]
fn disabling_every_class_yields_empty_class_set_error() {
    let result = PasswordGenerator::new()
        .uppercase_only(true)
        .lowercase_only(true)
        .exclude_numbers(true)
        .exclude_special_chars(true)
        .generate();

    assert_eq!(Err(GenerationError::EmptyClassSet), result);
}

#[test]
fn disabling_every_class_fails_even_for_zero_length() {
    let result = PasswordGenerator::new()
        .length(0)
        .uppercase_only(true)
        .lowercase_only(true)
        .exclude_numbers(true)
        .exclude_special_chars(true)
        .generate();

    assert_eq!(Err(GenerationError::EmptyClassSet), result);
}

#[test]
fn zero_length_yields_empty_password() {
    let result = PasswordGenerator::new().length(0).generate().unwrap();
    assert_eq!("", result);
}

#[test]
fn sixteen_chars_drawn_from_union_of_all_alphabets() {
    let result = PasswordGenerator::new().length(16).generate().unwrap();
    let special: Vec<char> = vec!['!', '@', '#', '$', '%', '^', '&', '*', '(', ')', '~'];

    assert_eq!(16, result.chars().count());
    for c in result.chars() {
        let in_union = c.is_ascii_lowercase()
            || c.is_ascii_uppercase()
            || c.is_ascii_digit()
            || special.contains(&c);
        assert!(in_union, "character {:?} outside the four alphabets", c);
    }
}

#[test]
fn same_config_gives_same_length() {
    let first = PasswordGenerator::new().length(32).generate().unwrap();
    let second = PasswordGenerator::new().length(32).generate().unwrap();
    assert_eq!(first.chars().count(), second.chars().count());
}

#[test]
fn long_password_is_not_a_single_repeated_char() {
    let result = PasswordGenerator::new().length(255).generate().unwrap();
    let mut chars = result.chars();
    let first = chars.next().unwrap();
    assert!(chars.any(|c| c != first));
}

#[test]
fn all_to_array_lists_the_four_codes_in_order() {
    let all = CompositionCodes::all_to_array();
    assert_eq!(CompositionCodes::Lowercase, all[0]);
    assert_eq!(CompositionCodes::Uppercase, all[1]);
    assert_eq!(CompositionCodes::Number, all[2]);
    assert_eq!(CompositionCodes::SpecialCharacter, all[3]);
}

#[test]
fn composition_has_configured_length() {
    let composition = PasswordGenerator::new()
        .length(40)
        .generate_random_composition()
        .unwrap();
    assert_eq!(40, composition.len());
}

#[test]
fn composition_omits_filtered_classes() {
    let composition = PasswordGenerator::new()
        .length(120)
        .uppercase_only(true)
        .exclude_special_chars(true)
        .generate_random_composition()
        .unwrap();
    for code in composition {
        assert!(code != CompositionCodes::Lowercase);
        assert!(code != CompositionCodes::SpecialCharacter);
    }
}

#[test]
fn rendering_follows_the_composition_classes() {
    let generator = PasswordGenerator::new();
    let composition = vec![
        CompositionCodes::Lowercase,
        CompositionCodes::Uppercase,
        CompositionCodes::Number,
        CompositionCodes::SpecialCharacter,
    ];
    let special: Vec<char> = vec!['!', '@', '#', '$', '%', '^', '&', '*', '(', ')', '~'];

    let rendered = generator.generate_random_string_from_composition(composition);
    let chars: Vec<char> = rendered.chars().collect();

    assert_eq!(4, chars.len());
    assert!(chars[0].is_ascii_lowercase());
    assert!(chars[1].is_ascii_uppercase());
    assert!(chars[2].is_ascii_digit());
    assert!(special.contains(&chars[3]));
}

#[test]
fn rendering_an_empty_composition_yields_an_empty_string() {
    let generator = PasswordGenerator::new();
    let rendered = generator.generate_random_string_from_composition(Vec::new());
    assert_eq!("", rendered);
}

#[test]
fn clipboard_error_messages() {
    assert_eq!("XClip not found", ClipboardError::NoXclip.message());
    assert_eq!("Failed to copy", ClipboardError::FailedToCopy.message());
}
