//! Password composition and generation.
//!
//! A password is produced in two steps: a *composition* (one character class
//! per output position) is drawn from the classes the configuration enables,
//! and then one character is drawn from each chosen class's fixed alphabet.
//! Every draw is independent and with replacement, so nothing beyond the
//! length and the class membership of each character is promised.

use rand::Rng;
use vstd::prelude::*;

verus! {

/// The four character classes from which password characters are drawn.
#[derive(Debug, PartialEq, Eq, Structural, Clone, Copy)]
pub enum CompositionCodes {
    Lowercase,
    Uppercase,
    Number,
    SpecialCharacter,
}

/// Why a password could not be generated.
#[derive(Debug, PartialEq, Eq, Structural, Clone, Copy)]
pub enum GenerationError {
    /// Every character class was disabled by the configuration, leaving no
    /// alphabet to draw from.
    EmptyClassSet,
}

/// `c` is one of the 26 ASCII lowercase letters `a`..`z`.
pub open spec fn is_lowercase_char(c: char) -> bool {
    'a' <= c && c <= 'z'
}

/// `c` is one of the 26 ASCII uppercase letters `A`..`Z`.
pub open spec fn is_uppercase_char(c: char) -> bool {
    'A' <= c && c <= 'Z'
}

/// `c` is one of the 10 decimal digits `0`..`9`.
pub open spec fn is_number_char(c: char) -> bool {
    '0' <= c && c <= '9'
}

/// `c` is one of the 11 special symbols `! @ # $ % ^ & * ( ) ~`.
pub open spec fn is_special_char(c: char) -> bool {
    c == '!' || c == '@' || c == '#' || c == '$' || c == '%' || c == '^' || c == '&' || c == '*'
        || c == '(' || c == ')' || c == '~'
}

/// The fixed lowercase alphabet, the 26 letters `a`..`z` in order.
pub open spec fn lowercase_alphabet() -> Seq<char> {
    seq![
        'a', 'b', 'c', 'd', 'e', 'f', 'g', 'h', 'i', 'j', 'k', 'l', 'm', 'n', 'o', 'p', 'q',
        'r', 's', 't', 'u', 'v', 'w', 'x', 'y', 'z',
    ]
}

/// The fixed uppercase alphabet, the 26 letters `A`..`Z` in order.
pub open spec fn uppercase_alphabet() -> Seq<char> {
    seq![
        'A', 'B', 'C', 'D', 'E', 'F', 'G', 'H', 'I', 'J', 'K', 'L', 'M', 'N', 'O', 'P', 'Q',
        'R', 'S', 'T', 'U', 'V', 'W', 'X', 'Y', 'Z',
    ]
}

/// The fixed number alphabet, the 10 digits `0`..`9` in order.
pub open spec fn number_alphabet() -> Seq<char> {
    seq!['0', '1', '2', '3', '4', '5', '6', '7', '8', '9']
}

/// The fixed special-character alphabet, the 11 symbols `! @ # $ % ^ & * ( ) ~`
/// in order.
pub open spec fn special_alphabet() -> Seq<char> {
    seq!['!', '@', '#', '$', '%', '^', '&', '*', '(', ')', '~']
}

/// `c` belongs to the fixed alphabet of the class `code`.
pub open spec fn char_in_class(code: CompositionCodes, c: char) -> bool {
    match code {
        CompositionCodes::Lowercase => is_lowercase_char(c),
        CompositionCodes::Uppercase => is_uppercase_char(c),
        CompositionCodes::Number => is_number_char(c),
        CompositionCodes::SpecialCharacter => is_special_char(c),
    }
}

impl CompositionCodes {
    /// All four composition codes, in their fixed order.
    pub fn all_to_array() -> (r: [CompositionCodes; 4])
        ensures
            r@ =~= seq![
                CompositionCodes::Lowercase,
                CompositionCodes::Uppercase,
                CompositionCodes::Number,
                CompositionCodes::SpecialCharacter,
            ],
    {
        [
            CompositionCodes::Lowercase,
            CompositionCodes::Uppercase,
            CompositionCodes::Number,
            CompositionCodes::SpecialCharacter,
        ]
    }
}

/// Relies on `rand::thread_rng` and `rand::Rng::gen_range`: a draw from the
/// non-empty range `0..=max` yields a value of that range. Nothing more is
/// promised of the result, which is random.
#[verifier::external_body]
fn random_index_up_to(max: usize) -> (r: usize)
    ensures
        r <= max,
{
    rand::thread_rng().gen_range(0..=max)
}

/// Relies on `String`'s `FromIterator<char>`: collecting characters yields
/// the string made of exactly those characters, in order.
#[verifier::external_body]
fn chars_to_string(chars: Vec<char>) -> (r: String)
    ensures
        r@ == chars@,
{
    String::from_iter(chars)
}

/// A configurable password generator.
///
/// Each instance carries the four class alphabets, the requested length, and
/// the toggles that enable or disable classes. Values are built with
/// [`PasswordGenerator::new`] and the builder methods, and consumed by
/// [`PasswordGenerator::generate`].
pub struct PasswordGenerator {
    /// Array of lowercase chars used when generating a password.
    pub lowercase_char_set: [char; 26],
    /// Array of uppercase chars used when generating a password.
    pub uppercase_char_set: [char; 26],
    /// Array of number chars used when generating a password.
    pub number_set: [char; 10],
    /// Array of special chars used when generating a password.
    pub spec_char_set: [char; 11],
    /// Array of composition codes used when generating a password.
    pub composition_codes: [CompositionCodes; 4],
    /// Length of the password to be generated. Default `8`.
    pub length: u8,
    /// Excludes the uppercase class when `true`. Default `false`.
    pub lowercase_only: bool,
    /// Excludes the lowercase class when `true`. Default `false`.
    pub uppercase_only: bool,
    /// Excludes the number class when `true`. Default `false`.
    pub exclude_numbers: bool,
    /// Excludes the special-character class when `true`. Default `false`.
    pub exclude_special_chars: bool,
}

impl PasswordGenerator {
    /// The stored alphabets hold only characters of their class, and the
    /// composition codes are the four classes in their fixed order.
    /// Established by [`PasswordGenerator::new`] and kept by every builder.
    pub open spec fn wf(self) -> bool {
        &&& forall|i: int|
            0 <= i < 26 ==> is_lowercase_char(#[trigger] self.lowercase_char_set@[i])
        &&& forall|i: int|
            0 <= i < 26 ==> is_uppercase_char(#[trigger] self.uppercase_char_set@[i])
        &&& forall|i: int| 0 <= i < 10 ==> is_number_char(#[trigger] self.number_set@[i])
        &&& forall|i: int| 0 <= i < 11 ==> is_special_char(#[trigger] self.spec_char_set@[i])
        &&& self.composition_codes@ =~= seq![
            CompositionCodes::Lowercase,
            CompositionCodes::Uppercase,
            CompositionCodes::Number,
            CompositionCodes::SpecialCharacter,
        ]
    }

    /// The class `code` survives the configuration's filters.
    pub open spec fn class_enabled(self, code: CompositionCodes) -> bool {
        match code {
            CompositionCodes::Lowercase => !self.uppercase_only,
            CompositionCodes::Uppercase => !self.lowercase_only,
            CompositionCodes::Number => !self.exclude_numbers,
            CompositionCodes::SpecialCharacter => !self.exclude_special_chars,
        }
    }

    /// At least one character class survives the configuration's filters.
    pub open spec fn some_class_enabled(self) -> bool {
        !(self.uppercase_only && self.lowercase_only && self.exclude_numbers
            && self.exclude_special_chars)
    }

    /// `c` belongs to the alphabet of some enabled class.
    pub open spec fn allowed_char(self, c: char) -> bool {
        ||| !self.uppercase_only && is_lowercase_char(c)
        ||| !self.lowercase_only && is_uppercase_char(c)
        ||| !self.exclude_numbers && is_number_char(c)
        ||| !self.exclude_special_chars && is_special_char(c)
    }

    /// `p` has exactly the configured length and every one of its characters
    /// comes from the alphabet of an enabled class. This is everything that
    /// is promised of a generated password: which characters are drawn is
    /// random.
    pub open spec fn valid_password(self, p: Seq<char>) -> bool {
        &&& p.len() == self.length as int
        &&& forall|i: int| 0 <= i < p.len() ==> self.allowed_char(#[trigger] p[i])
    }

    /// A generator holding the four fixed alphabets, with all four classes
    /// enabled and the default length of 8.
    pub fn new() -> (r: PasswordGenerator)
        ensures
            r.wf(),
            r.lowercase_char_set@ =~= lowercase_alphabet(),
            r.uppercase_char_set@ =~= uppercase_alphabet(),
            r.number_set@ =~= number_alphabet(),
            r.spec_char_set@ =~= special_alphabet(),
            r.length == 8,
            !r.lowercase_only,
            !r.uppercase_only,
            !r.exclude_numbers,
            !r.exclude_special_chars,
    {
        let lowercase_char_set = [
            'a', 'b', 'c', 'd', 'e', 'f', 'g', 'h', 'i', 'j', 'k', 'l', 'm', 'n', 'o', 'p', 'q',
            'r', 's', 't', 'u', 'v', 'w', 'x', 'y', 'z',
        ];
        let uppercase_char_set = [
            'A', 'B', 'C', 'D', 'E', 'F', 'G', 'H', 'I', 'J', 'K', 'L', 'M', 'N', 'O', 'P', 'Q',
            'R', 'S', 'T', 'U', 'V', 'W', 'X', 'Y', 'Z',
        ];

        PasswordGenerator {
            lowercase_char_set,
            uppercase_char_set,
            number_set: ['0', '1', '2', '3', '4', '5', '6', '7', '8', '9'],
            spec_char_set: ['!', '@', '#', '$', '%', '^', '&', '*', '(', ')', '~'],
            composition_codes: CompositionCodes::all_to_array(),
            length: 8,
            lowercase_only: false,
            uppercase_only: false,
            exclude_numbers: false,
            exclude_special_chars: false,
        }
    }

    /// Builder method that sets the password length.
    pub fn length(self, length: u8) -> (r: Self)
        ensures
            r == (Self { length, ..self }),
            self.wf() ==> r.wf(),
    {
        let mut g = self;
        g.length = length;
        g
    }

    /// Builder method that restricts letters to lowercase.
    pub fn lowercase_only(self, lowercase_only: bool) -> (r: Self)
        ensures
            r == (Self { lowercase_only, ..self }),
            self.wf() ==> r.wf(),
    {
        let mut g = self;
        g.lowercase_only = lowercase_only;
        g
    }

    /// Builder method that restricts letters to uppercase.
    pub fn uppercase_only(self, uppercase_only: bool) -> (r: Self)
        ensures
            r == (Self { uppercase_only, ..self }),
            self.wf() ==> r.wf(),
    {
        let mut g = self;
        g.uppercase_only = uppercase_only;
        g
    }

    /// Builder method that excludes the number class.
    pub fn exclude_numbers(self, exclude_numbers: bool) -> (r: Self)
        ensures
            r == (Self { exclude_numbers, ..self }),
            self.wf() ==> r.wf(),
    {
        let mut g = self;
        g.exclude_numbers = exclude_numbers;
        g
    }

    /// Builder method that excludes the special-character class.
    pub fn exclude_special_chars(self, exclude_special_chars: bool) -> (r: Self)
        ensures
            r == (Self { exclude_special_chars, ..self }),
            self.wf() ==> r.wf(),
    {
        let mut g = self;
        g.exclude_special_chars = exclude_special_chars;
        g
    }

    /// A random lowercase letter.
    fn get_random_lowercase_char(&self) -> (c: char)
        requires
            self.wf(),
        ensures
            is_lowercase_char(c),
    {
        let rnd_index = random_index_up_to(25);
        self.lowercase_char_set[rnd_index]
    }

    /// A random uppercase letter.
    fn get_random_uppercase_char(&self) -> (c: char)
        requires
            self.wf(),
        ensures
            is_uppercase_char(c),
    {
        let rnd_index = random_index_up_to(25);
        self.uppercase_char_set[rnd_index]
    }

    /// A random decimal digit.
    fn get_random_number(&self) -> (c: char)
        requires
            self.wf(),
        ensures
            is_number_char(c),
    {
        let rnd_index = random_index_up_to(9);
        self.number_set[rnd_index]
    }

    /// A random special symbol.
    fn get_random_special_character(&self) -> (c: char)
        requires
            self.wf(),
        ensures
            is_special_char(c),
    {
        let rnd_index = random_index_up_to(10);
        self.spec_char_set[rnd_index]
    }

    /// The composition codes that survive the configuration's filters, in
    /// their fixed order.
    fn enabled_codes(&self) -> (r: Vec<CompositionCodes>)
        ensures
            forall|i: int| 0 <= i < r@.len() ==> self.class_enabled(#[trigger] r@[i]),
            forall|code: CompositionCodes| self.class_enabled(code) ==> r@.contains(code),
            r@.len() > 0 <==> self.some_class_enabled(),
    {
        let mut enabled: Vec<CompositionCodes> = Vec::new();
        if !self.uppercase_only {
            enabled.push(CompositionCodes::Lowercase);
        }
        if !self.lowercase_only {
            enabled.push(CompositionCodes::Uppercase);
        }
        if !self.exclude_numbers {
            enabled.push(CompositionCodes::Number);
        }
        if !self.exclude_special_chars {
            enabled.push(CompositionCodes::SpecialCharacter);
        }
        proof {
            let s = enabled@;
            assert forall|code: CompositionCodes|
                self.class_enabled(code) implies s.contains(code) by {
                let upper_at: int = if self.uppercase_only {
                    0
                } else {
                    1
                };
                let number_at: int = upper_at + if self.lowercase_only {
                    0int
                } else {
                    1int
                };
                let special_at: int = number_at + if self.exclude_numbers {
                    0int
                } else {
                    1int
                };
                match code {
                    CompositionCodes::Lowercase => {
                        assert(s[0] == code);
                    },
                    CompositionCodes::Uppercase => {
                        assert(s[upper_at] == code);
                    },
                    CompositionCodes::Number => {
                        assert(s[number_at] == code);
                    },
                    CompositionCodes::SpecialCharacter => {
                        assert(s[special_at] == code);
                    },
                }
            }
        }
        enabled
    }

    /// Draws, for each of the `length` output positions, one enabled class,
    /// independently and with replacement. Fails with
    /// [`GenerationError::EmptyClassSet`] exactly when the configuration
    /// disables every class.
    pub fn generate_random_composition(&self) -> (r: Result<
        Vec<CompositionCodes>,
        GenerationError,
    >)
        ensures
            r is Ok <==> self.some_class_enabled(),
            r matches Ok(comp) ==> {
                &&& comp@.len() == self.length as int
                &&& forall|i: int|
                    0 <= i < comp@.len() ==> self.class_enabled(#[trigger] comp@[i])
            },
            r matches Err(e) ==> e == GenerationError::EmptyClassSet,
    {
        let enabled = self.enabled_codes();
        if enabled.len() == 0 {
            return Err(GenerationError::EmptyClassSet);
        }

        let mut result: Vec<CompositionCodes> = Vec::new();
        let mut i: u8 = 0;
        while i < self.length
            invariant
                i <= self.length,
                result@.len() == i as int,
                enabled@.len() > 0,
                forall|j: int|
                    0 <= j < enabled@.len() ==> self.class_enabled(#[trigger] enabled@[j]),
                forall|j: int|
                    0 <= j < result@.len() ==> self.class_enabled(#[trigger] result@[j]),
            decreases self.length - i,
        {
            let rnd_index = random_index_up_to(enabled.len() - 1);
            result.push(enabled[rnd_index]);
            i = i + 1;
        }

        Ok(result)
    }

    /// Draws one character from the alphabet of each class in the
    /// composition, in composition order. The result has one character per
    /// composition entry, each from its entry's alphabet; an empty
    /// composition yields the empty string.
    pub fn generate_random_string_from_composition(
        &self,
        composition: Vec<CompositionCodes>,
    ) -> (password: String)
        requires
            self.wf(),
        ensures
            password@.len() == composition@.len(),
            forall|i: int|
                0 <= i < composition@.len() ==> char_in_class(
                    composition@[i],
                    #[trigger] password@[i],
                ),
    {
        let mut password: Vec<char> = Vec::new();
        let mut idx: usize = 0;
        while idx < composition.len()
            invariant
                self.wf(),
                idx <= composition@.len(),
                password@.len() == idx as int,
                forall|i: int|
                    0 <= i < idx as int ==> char_in_class(
                        composition@[i],
                        #[trigger] password@[i],
                    ),
            decreases composition@.len() - idx,
        {
            let value = match composition[idx] {
                CompositionCodes::Lowercase => self.get_random_lowercase_char(),
                CompositionCodes::Uppercase => self.get_random_uppercase_char(),
                CompositionCodes::Number => self.get_random_number(),
                CompositionCodes::SpecialCharacter => self.get_random_special_character(),
            };
            password.push(value);
            idx = idx + 1;
        }

        chars_to_string(password)
    }

    /// Generates a password: draws a composition from the enabled classes and
    /// renders it. Succeeds exactly when at least one class is enabled; the
    /// password then has the configured length and draws every character from
    /// an enabled class's alphabet.
    pub fn generate(&self) -> (r: Result<String, GenerationError>)
        requires
            self.wf(),
        ensures
            r is Ok <==> self.some_class_enabled(),
            r matches Ok(p) ==> self.valid_password(p@),
            r matches Err(e) ==> e == GenerationError::EmptyClassSet,
    {
        let composition = match self.generate_random_composition() {
            Ok(c) => c,
            Err(e) => {
                return Err(e);
            },
        };
        let password = self.generate_random_string_from_composition(composition);
        Ok(password)
    }
}

impl Default for PasswordGenerator {
    /// Same as [`PasswordGenerator::new`]: the fixed alphabets, all classes
    /// enabled, length 8.
    fn default() -> (r: Self)
        ensures
            r.wf(),
            r.lowercase_char_set@ =~= lowercase_alphabet(),
            r.uppercase_char_set@ =~= uppercase_alphabet(),
            r.number_set@ =~= number_alphabet(),
            r.spec_char_set@ =~= special_alphabet(),
            r.length == 8,
            !r.lowercase_only,
            !r.uppercase_only,
            !r.exclude_numbers,
            !r.exclude_special_chars,
    {
        Self::new()
    }
}

/// Law: a password that is valid for a configuration with `uppercase_only`
/// set contains no lowercase letter, whatever its length.
pub proof fn lemma_uppercase_only_excludes_lowercase(g: PasswordGenerator, p: Seq<char>)
    requires
        g.uppercase_only,
        g.valid_password(p),
    ensures
        forall|i: int| 0 <= i < p.len() ==> !is_lowercase_char(#[trigger] p[i]),
{
    assert forall|i: int| 0 <= i < p.len() implies !is_lowercase_char(#[trigger] p[i]) by {
        assert(g.allowed_char(p[i]));
    }
}

/// Law: a password that is valid for a configuration with `lowercase_only`
/// set contains no uppercase letter, whatever its length.
pub proof fn lemma_lowercase_only_excludes_uppercase(g: PasswordGenerator, p: Seq<char>)
    requires
        g.lowercase_only,
        g.valid_password(p),
    ensures
        forall|i: int| 0 <= i < p.len() ==> !is_uppercase_char(#[trigger] p[i]),
{
    assert forall|i: int| 0 <= i < p.len() implies !is_uppercase_char(#[trigger] p[i]) by {
        assert(g.allowed_char(p[i]));
    }
}

/// Law: a password that is valid for a configuration with `exclude_numbers`
/// set contains no character of the digit alphabet.
pub proof fn lemma_exclude_numbers_excludes_digits(g: PasswordGenerator, p: Seq<char>)
    requires
        g.exclude_numbers,
        g.valid_password(p),
    ensures
        forall|i: int| 0 <= i < p.len() ==> !is_number_char(#[trigger] p[i]),
{
    assert forall|i: int| 0 <= i < p.len() implies !is_number_char(#[trigger] p[i]) by {
        assert(g.allowed_char(p[i]));
    }
}

/// Law: a password that is valid for a configuration with
/// `exclude_special_chars` set contains none of the 11 special symbols.
pub proof fn lemma_exclude_special_excludes_special_chars(g: PasswordGenerator, p: Seq<char>)
    requires
        g.exclude_special_chars,
        g.valid_password(p),
    ensures
        forall|i: int| 0 <= i < p.len() ==> !is_special_char(#[trigger] p[i]),
{
    assert forall|i: int| 0 <= i < p.len() implies !is_special_char(#[trigger] p[i]) by {
        assert(g.allowed_char(p[i]));
    }
}

/// Law: two passwords that are valid for the same configuration have the same
/// length; their contents are not required to agree, since every character is
/// drawn at random.
pub proof fn lemma_same_config_same_length(g: PasswordGenerator, p1: Seq<char>, p2: Seq<char>)
    requires
        g.valid_password(p1),
        g.valid_password(p2),
    ensures
        p1.len() == p2.len(),
{
}

} // verus!
