//! Request-shape validation: username charset and password complexity.
//!
//! Every auth flow runs these checks before touching any collaborator, so
//! that malformed requests fail fast and cheaply.

use vstd::prelude::*;
use vstd::string::StrSliceExecFns;
use vstd::string::StringSliceAdditionalSpecFns;
use vstd::utf8::encode_scalar;
use vstd::utf8::encode_utf8;

verus! {

/// Whether `char::is_alphanumeric` accepts the character.
pub uninterp spec fn char_alphanumeric(c: char) -> bool;

/// Relies on char::is_alphanumeric: a pure predicate on the character alone.
pub assume_specification[ char::is_alphanumeric ](c: char) -> (r: bool)
    ensures
        r == char_alphanumeric(c),
;

/// Whether `char::is_lowercase` accepts the character.
pub uninterp spec fn char_lowercase(c: char) -> bool;

/// Relies on char::is_lowercase: a pure predicate on the character alone.
pub assume_specification[ char::is_lowercase ](c: char) -> (r: bool)
    ensures
        r == char_lowercase(c),
;

/// Whether `char::is_uppercase` accepts the character.
pub uninterp spec fn char_uppercase(c: char) -> bool;

/// Relies on char::is_uppercase: a pure predicate on the character alone.
pub assume_specification[ char::is_uppercase ](c: char) -> (r: bool)
    ensures
        r == char_uppercase(c),
;

/// An ASCII decimal digit.
pub open spec fn ascii_digit(c: char) -> bool {
    48 <= c as u32 <= 57
}

/// Whether the address parses as a valid email address.
pub uninterp spec fn is_valid_email(s: Seq<char>) -> bool;

/// Relies on email_address::EmailAddress::is_valid: a deterministic,
/// purely syntactic check of the address against the crate's RFC parsing
/// rules.
#[verifier::external_body]
pub fn email_is_valid(address: &str) -> (r: bool)
    ensures
        r == is_valid_email(address@),
{
    email_address::EmailAddress::is_valid(address)
}

/// How many bytes one character takes in UTF-8.
fn char_utf8_len(c: char) -> (r: usize)
    ensures
        r == encode_scalar(c as u32).len(),
        1 <= r <= 4,
{
    let v = c as u32;
    if v < 0x80 {
        1
    } else if v < 0x800 {
        2
    } else if v < 0x10000 {
        3
    } else {
        4
    }
}

/// Encoding one more character appends that character's bytes.
proof fn lemma_encode_utf8_push(chars: Seq<char>, c: char)
    ensures
        encode_utf8(chars.push(c)).len() == encode_utf8(chars).len() + encode_scalar(
            c as u32,
        ).len(),
    decreases chars.len(),
{
    if chars.len() == 0 {
        assert(chars.push(c)[0] == c);
        assert(chars.push(c).drop_first() =~= chars);
    } else {
        lemma_encode_utf8_push(chars.drop_first(), c);
        assert(chars.push(c)[0] == chars[0]);
        assert(chars.push(c).drop_first() =~= chars.drop_first().push(c));
    }
}

/// A prefix never encodes to more bytes than the whole.
proof fn lemma_encode_utf8_prefix_le(chars: Seq<char>, i: int)
    requires
        0 <= i <= chars.len(),
    ensures
        encode_utf8(chars.subrange(0, i)).len() <= encode_utf8(chars).len(),
    decreases chars.len() - i,
{
    if i == chars.len() as int {
        assert(chars.subrange(0, i) =~= chars);
    } else {
        lemma_encode_utf8_prefix_le(chars, i + 1);
        assert(chars.subrange(0, i + 1) =~= chars.subrange(0, i).push(chars[i]));
        lemma_encode_utf8_push(chars.subrange(0, i), chars[i]);
    }
}

/// A valid username: non-empty, at most 20 UTF-8 bytes, every character
/// alphanumeric (which admits scripts beyond ASCII).
pub open spec fn valid_username(s: &str) -> bool {
    &&& s@.len() > 0
    &&& s.spec_bytes().len() <= 20
    &&& forall|i: int| 0 <= i < s@.len() ==> char_alphanumeric(#[trigger] s@[i])
}

pub fn validate_username(username: &str) -> (r: bool)
    ensures
        r == valid_username(username),
{
    let n = username.unicode_len();
    if n == 0 {
        return false;
    }
    let mut bytes: usize = 0;
    for i in 0..n
        invariant
            n == username@.len(),
            n > 0,
            bytes == encode_utf8(username@.subrange(0, i as int)).len(),
            bytes <= 20,
            forall|j: int| 0 <= j < i ==> char_alphanumeric(#[trigger] username@[j]),
    {
        let c = username.get_char(i);
        if !c.is_alphanumeric() {
            return false;
        }
        let width = char_utf8_len(c);
        proof {
            assert(username@.subrange(0, i + 1) =~= username@.subrange(0, i as int).push(
                username@[i as int],
            ));
            lemma_encode_utf8_push(username@.subrange(0, i as int), username@[i as int]);
        }
        if bytes + width > 20 {
            proof {
                lemma_encode_utf8_prefix_le(username@, i + 1);
            }
            return false;
        }
        bytes = bytes + width;
    }
    proof {
        assert(username@.subrange(0, n as int) =~= username@);
    }
    true
}

/// A password of acceptable complexity: at least 8 characters, with at
/// least one lowercase character, one uppercase character, and one ASCII
/// digit.
pub open spec fn valid_password_form(s: &str) -> bool {
    &&& s@.len() >= 8
    &&& exists|i: int| 0 <= i < s@.len() && char_lowercase(#[trigger] s@[i])
    &&& exists|i: int| 0 <= i < s@.len() && char_uppercase(#[trigger] s@[i])
    &&& exists|i: int| 0 <= i < s@.len() && ascii_digit(#[trigger] s@[i])
}

pub fn validate_password_form(password: &str) -> (r: bool)
    ensures
        r == valid_password_form(password),
{
    let n = password.unicode_len();
    if n < 8 {
        return false;
    }

    let mut has_lowercase: bool = false;
    let mut has_uppercase: bool = false;
    let mut has_ascii_digit: bool = false;

    for i in 0..n
        invariant
            n == password@.len(),
            n >= 8,
            has_lowercase <==> exists|j: int|
                0 <= j < i && char_lowercase(#[trigger] password@[j]),
            has_uppercase <==> exists|j: int|
                0 <= j < i && char_uppercase(#[trigger] password@[j]),
            has_ascii_digit <==> exists|j: int|
                0 <= j < i && ascii_digit(#[trigger] password@[j]),
    {
        let ch = password.get_char(i);
        if ch.is_lowercase() {
            has_lowercase = true;
        }
        if ch.is_uppercase() {
            has_uppercase = true;
        }
        let code = ch as u32;
        if 48 <= code && code <= 57 {
            has_ascii_digit = true;
        }
    }

    has_lowercase && has_uppercase && has_ascii_digit
}

} // verus!
