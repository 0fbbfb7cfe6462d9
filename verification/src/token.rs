//! Session and refresh tokens: 128-bit identifiers, written in UUID form.

use vstd::prelude::*;

verus! {

/// An opaque 128-bit identifier. A session token names a session; a refresh token is the
/// single-use credential that renews it.
#[derive(Clone, Copy, Debug, PartialEq, Eq, Structural)]
pub struct Token {
    /// The identifier as a number, most significant byte first.
    pub value: u128,
}

/// What `Uuid::parse_str` of the crate `uuid` makes of a text: the 128 bits of the
/// identifier, or nothing where it returns an error.
pub uninterp spec fn parsed_uuid(text: Seq<char>) -> Option<u128>;

/// The sixteen digits of the canonical form, by their value.
pub open spec fn hex_digit(value: int) -> char {
    seq!['0', '1', '2', '3', '4', '5', '6', '7', '8', '9', 'a', 'b', 'c', 'd', 'e', 'f'][value]
}

/// The digit of an identifier at place `place` of its 32, the most significant first.
pub open spec fn digit_at(value: u128, place: int) -> int {
    (value as int / vstd::arithmetic::power::pow(16, (31 - place) as nat)) % 16
}

/// Whether a position of the canonical form holds a hyphen.
pub open spec fn is_hyphen(position: int) -> bool {
    position == 8 || position == 13 || position == 18 || position == 23
}

/// The number of hyphens that stand before a position of the canonical form.
pub open spec fn hyphens_before(position: int) -> int {
    if position < 8 {
        0
    } else if position < 13 {
        1
    } else if position < 18 {
        2
    } else if position < 23 {
        3
    } else {
        4
    }
}

/// The canonical form of an identifier: its 32 hexadecimal digits in lower case, the most
/// significant first, in groups of 8, 4, 4, 4 and 12 with a hyphen between the groups.
pub open spec fn uuid_text(value: u128) -> Seq<char> {
    Seq::new(
        36,
        |position: int|
            if is_hyphen(position) {
                '-'
            } else {
                hex_digit(digit_at(value, position - hyphens_before(position)))
            },
    )
}

/// Calls `Uuid::parse_str` and hands out the identifier's 128 bits (`Uuid::as_u128`), or
/// nothing where the text is no UUID. The result is named, not described.
#[verifier::external_body]
fn parse_uuid(text: &str) -> (parsed: Option<u128>)
    ensures
        parsed == parsed_uuid(text@),
{
    match sqlx::types::Uuid::parse_str(text) {
        Ok(uuid) => Some(uuid.as_u128()),
        Err(_) => None,
    }
}

/// Calls `Uuid::to_string` on the identifier with the given 128 bits (`Uuid::from_u128`).
/// The outside crate writes the hyphenated form in lower case, which is what `uuid_text`
/// states; it is also claimed that `Uuid::parse_str` reads the text back as the same
/// identifier, which the outside crate documents of every form it writes.
#[verifier::external_body]
fn format_uuid(value: u128) -> (text: String)
    ensures
        text@ == uuid_text(value),
        parsed_uuid(text@) == Some(value),
{
    sqlx::types::Uuid::from_u128(value).to_string()
}

impl Token {
    /// The token that a parsed identifier stands for.
    pub open spec fn spec_from_parsed(parsed: Option<u128>) -> Option<Token> {
        match parsed {
            Some(value) => Some(Token { value }),
            None => None,
        }
    }

    /// Makes a token of the outcome of parsing an identifier.
    pub fn from_parsed(parsed: Option<u128>) -> (token: Option<Token>)
        ensures
            token == Self::spec_from_parsed(parsed),
    {
        match parsed {
            Some(value) => Some(Token { value }),
            None => None,
        }
    }

    /// Reads a token written in UUID form; nothing where the text is no UUID.
    pub fn parse(text: &str) -> (token: Option<Token>)
        ensures
            token == Self::spec_from_parsed(parsed_uuid(text@)),
    {
        Token::from_parsed(parse_uuid(text))
    }

    /// Writes the token in its canonical form, which `parse` reads back as the same token.
    pub fn text(&self) -> (text: String)
        ensures
            text@ == uuid_text(self.value),
            Self::spec_from_parsed(parsed_uuid(text@)) == Some(*self),
    {
        format_uuid(self.value)
    }
}

/// The canonical form has 36 characters, with hyphens at the four places between the
/// groups and a hexadecimal digit everywhere else.
pub proof fn lemma_uuid_text_shape(value: u128, position: int)
    requires
        0 <= position < 36,
    ensures
        uuid_text(value).len() == 36,
        is_hyphen(position) ==> uuid_text(value)[position] == '-',
        !is_hyphen(position) ==> {
            let digit = digit_at(value, position - hyphens_before(position));
            &&& 0 <= digit < 16
            &&& uuid_text(value)[position] == hex_digit(digit)
            &&& uuid_text(value)[position] != '-'
        },
{
}

} // verus!
