//! Client-side rules for user input: they fail locally, before any request.
use vstd::prelude::*;
use vstd::string::*;
use crate::text::chars_of;

verus! {

/// The format of a password: 10 to 20 characters of the allowed set.
pub const PASSWORD_PATTERN: &'static str = "^[A-Za-z0-9@$!%*?&_-]{10,20}$";

/// The format of a phone number: an optional country code, a dash, 6 to 14
/// digits.
pub const PHONE_PATTERN: &'static str = "^(\\+\\d{1,3})?-\\d{6,14}$";

/// Why an input was rejected.
#[derive(Clone, Debug, PartialEq, Eq)]
pub struct ValidationError {
    /// A stable identifier of the rule.
    pub code: String,
    /// The text for the user.
    pub message: String,
}

impl View for ValidationError {
    type V = (Seq<char>, Seq<char>);

    open spec fn view(&self) -> (Seq<char>, Seq<char>) {
        (self.code@, self.message@)
    }
}

impl ValidationError {
    pub fn new(code: &str, message: &str) -> (e: ValidationError)
        ensures
            e@ == (code@, message@),
    {
        ValidationError { code: String::from_str(code), message: String::from_str(message) }
    }
}

pub open spec fn verdict_view(r: Result<(), ValidationError>) -> Option<(Seq<char>, Seq<char>)> {
    match r {
        Ok(_) => None,
        Err(e) => Some(e@),
    }
}

/// Whether the `regex` crate finds a match of a pattern in a text; `None`
/// where the pattern does not compile.
pub uninterp spec fn regex_matches(pattern: Seq<char>, text: Seq<char>) -> Option<bool>;

/// Whether the `validator` crate takes a text for an e-mail address.
pub uninterp spec fn email_format(text: Seq<char>) -> bool;

/// Compiles the pattern with `regex::Regex::new` and calls `Regex::is_match`
/// on the text. The contract only names the result: it depends on the pattern
/// and the text alone.
#[verifier::external_body]
pub(crate) fn regex_is_match(pattern: &str, text: &str) -> (r: Option<bool>)
    ensures
        r == regex_matches(pattern@, text@),
{
    match regex::Regex::new(pattern) {
        Ok(re) => Some(re.is_match(text)),
        Err(_) => None,
    }
}

/// Calls `validator::ValidateEmail::validate_email` on the text. The contract
/// only names the result: it depends on the text alone.
#[verifier::external_body]
pub(crate) fn email_is_valid(text: &str) -> (r: bool)
    ensures
        r == email_format(text@),
{
    validator::ValidateEmail::validate_email(&text)
}

/// The classes of characters a password must draw from.
#[derive(Clone, Copy, Debug, PartialEq, Eq, Structural)]
pub enum CharClass {
    Lowercase,
    Uppercase,
    Digit,
    Special,
}

/// Whether a character belongs to a class; the special characters are
/// `@$!%*?&_-`.
pub open spec fn in_class(c: char, class: CharClass) -> bool {
    match class {
        CharClass::Lowercase => 'a' <= c <= 'z',
        CharClass::Uppercase => 'A' <= c <= 'Z',
        CharClass::Digit => '0' <= c <= '9',
        CharClass::Special => c == '@' || c == '$' || c == '!' || c == '%' || c == '*' || c == '?'
            || c == '&' || c == '_' || c == '-',
    }
}

/// Whether a text holds a character of a class.
pub open spec fn has_class(s: Seq<char>, class: CharClass) -> bool {
    exists|i: int| 0 <= i < s.len() && in_class(#[trigger] s[i], class)
}

fn char_in_class(c: char, class: CharClass) -> (b: bool)
    ensures
        b == in_class(c, class),
{
    match class {
        CharClass::Lowercase => 'a' <= c && c <= 'z',
        CharClass::Uppercase => 'A' <= c && c <= 'Z',
        CharClass::Digit => '0' <= c && c <= '9',
        CharClass::Special => c == '@' || c == '$' || c == '!' || c == '%' || c == '*' || c == '?'
            || c == '&' || c == '_' || c == '-',
    }
}

/// Whether some character of `chars` belongs to `class`.
pub fn any_in_class(chars: &Vec<char>, class: CharClass) -> (b: bool)
    ensures
        b == has_class(chars@, class),
{
    let mut i: usize = 0;
    while i < chars.len()
        invariant
            i <= chars.len(),
            forall|j: int| 0 <= j < i ==> !in_class(#[trigger] chars@[j], class),
        decreases chars.len() - i,
    {
        if char_in_class(chars[i], class) {
            return true;
        }
        i += 1;
    }
    false
}

/// Whether a text holds a space.
pub open spec fn has_space(s: Seq<char>) -> bool {
    exists|i: int| 0 <= i < s.len() && #[trigger] s[i] == ' '
}

/// A username must not hold a space.
pub fn validate_no_spaces(username: &str) -> (r: Result<(), ValidationError>)
    ensures
        verdict_view(r) == if has_space(username@) {
            Some(("no_spaces"@, "Username cannot contain spaces"@))
        } else {
            None
        },
{
    let chars = chars_of(username);
    let mut i: usize = 0;
    while i < chars.len()
        invariant
            i <= chars.len(),
            chars@ == username@,
            forall|j: int| 0 <= j < i ==> #[trigger] chars@[j] != ' ',
        decreases chars.len() - i,
    {
        if chars[i] == ' ' {
            return Err(ValidationError::new("no_spaces", "Username cannot contain spaces"));
        }
        i += 1;
    }
    Ok(())
}

/// The verdict on a password, given whether it has the password format.
pub open spec fn password_verdict_spec(format: Option<bool>, password: Seq<char>) -> Option<
    (Seq<char>, Seq<char>),
> {
    if format != Some(true) {
        Some(
            (
                "invalid_password_format"@,
                "Password must be 10-20 characters and must contain lower and upper letters, numbers, and special characters (@$!%*?&)"@,
            ),
        )
    } else if !has_class(password, CharClass::Lowercase) || !has_class(
        password,
        CharClass::Uppercase,
    ) || !has_class(password, CharClass::Digit) || !has_class(password, CharClass::Special) {
        Some(
            (
                "invalid_password_requirement"@,
                "Password must include at least one uppercase letter, one lowercase letter, one number, and one special character (@$!%*?&)"@,
            ),
        )
    } else {
        None
    }
}

/// Judges a password whose format was matched already: it must also hold a
/// lowercase letter, an uppercase letter, a digit and a special character.
pub fn password_verdict(format: Option<bool>, password: &str) -> (r: Result<(), ValidationError>)
    ensures
        verdict_view(r) == password_verdict_spec(format, password@),
{
    match format {
        Some(true) => {},
        _ => {
            return Err(
                ValidationError::new(
                    "invalid_password_format",
                    "Password must be 10-20 characters and must contain lower and upper letters, numbers, and special characters (@$!%*?&)",
                ),
            );
        },
    }
    let chars = chars_of(password);
    let has_lowercase = any_in_class(&chars, CharClass::Lowercase);
    let has_uppercase = any_in_class(&chars, CharClass::Uppercase);
    let has_digit = any_in_class(&chars, CharClass::Digit);
    let has_special = any_in_class(&chars, CharClass::Special);
    if !has_lowercase || !has_uppercase || !has_digit || !has_special {
        return Err(
            ValidationError::new(
                "invalid_password_requirement",
                "Password must include at least one uppercase letter, one lowercase letter, one number, and one special character (@$!%*?&)",
            ),
        );
    }
    Ok(())
}

/// A password must match [`PASSWORD_PATTERN`] and draw from all four classes.
pub fn validate_password(password: &str) -> (r: Result<(), ValidationError>)
    ensures
        verdict_view(r) == password_verdict_spec(
            regex_matches(PASSWORD_PATTERN@, password@),
            password@,
        ),
{
    password_verdict(regex_is_match(PASSWORD_PATTERN, password), password)
}

/// The verdict on a phone number, given whether it has the phone format.
pub open spec fn phone_verdict_spec(format: Option<bool>) -> Option<(Seq<char>, Seq<char>)> {
    if format == Some(true) {
        None
    } else {
        Some(("invalid_phone"@, "Phone number must be in the format +123-1234567890"@))
    }
}

/// Judges a phone number by the outcome of the format match.
pub fn phone_verdict(format: Option<bool>) -> (r: Result<(), ValidationError>)
    ensures
        verdict_view(r) == phone_verdict_spec(format),
{
    match format {
        Some(true) => Ok(()),
        _ => Err(
            ValidationError::new("invalid_phone", "Phone number must be in the format +123-1234567890"),
        ),
    }
}

/// A phone number must match [`PHONE_PATTERN`].
pub fn validate_phone(phone: &str) -> (r: Result<(), ValidationError>)
    ensures
        verdict_view(r) == phone_verdict_spec(regex_matches(PHONE_PATTERN@, phone@)),
{
    phone_verdict(regex_is_match(PHONE_PATTERN, phone))
}

} // verus!
