//! Validators for the fields of the registration and account forms.
use vstd::prelude::*;
use crate::text::{
    byte_len, contains_char, encode_utf8_len, is_ascii_alnum, is_ascii_alnum_char, is_ascii_digit, text_eq,
    lemma_trimmed_idempotent, trim, trimmed,
};

verus! {

/// Whether `c` is an ASCII hexadecimal digit (`0-9`, `a-f`, `A-F`).
pub open spec fn is_hex_digit(c: char) -> bool {
    ('0' <= c <= '9') || ('a' <= c <= 'f') || ('A' <= c <= 'F')
}

/// The character a UUID holds at position `i`: a hyphen at 8, 13, 18
/// and 23, a hexadecimal digit elsewhere.
pub open spec fn uuid_char_ok(i: int, c: char) -> bool {
    if i == 8 || i == 13 || i == 18 || i == 23 {
        c == '-'
    } else {
        is_hex_digit(c)
    }
}

/// `xxxxxxxx-xxxx-xxxx-xxxx-xxxxxxxxxxxx` once white space is trimmed:
/// 36 bytes long, with each character as [`uuid_char_ok`] places it.
pub open spec fn spec_is_valid_uuid(s: Seq<char>) -> bool {
    let t = trimmed(s);
    &&& encode_utf8_len(t) == 36
    &&& forall|i: int| 0 <= i < t.len() ==> uuid_char_ok(i, #[trigger] t[i])
}


/// Validate that a string matches UUID format (hex digits, any case).
/// Variant bits are not checked.
pub fn is_valid_uuid(input: &str) -> (r: bool)
    ensures
        r == spec_is_valid_uuid(input@),
{
    let t = trim(input);
    if byte_len(t) != 36 {
        return false;
    }
    let n = t.unicode_len();
    let mut i: usize = 0;
    while i < n
        invariant
            n == t@.len(),
            i <= n,
            t@ == trimmed(input@),
            encode_utf8_len(t@) == 36,
            forall|k: int| 0 <= k < i ==> uuid_char_ok(k, #[trigger] t@[k]),
        decreases n - i,
    {
        let c = t.get_char(i);
        let ok = if i == 8 || i == 13 || i == 18 || i == 23 {
            c == '-'
        } else {
            ('0' <= c && c <= '9') || ('a' <= c && c <= 'f') || ('A' <= c && c <= 'F')
        };
        if !ok {
            return false;
        }
        i = i + 1;
    }
    true
}


/// `i` is the position of the first `c` in `s`.
pub open spec fn is_first_index(s: Seq<char>, c: char, i: int) -> bool {
    &&& 0 <= i < s.len()
    &&& s[i] == c
    &&& forall|k: int| 0 <= k < i ==> s[k] != c
}

/// The simple e-mail shape the forms accept, once white space is
/// trimmed: a non-empty part before the first `@`, and after it a domain
/// that holds a `.` but neither starts nor ends with one; no space
/// anywhere.
pub open spec fn spec_is_valid_email(s: Seq<char>) -> bool {
    let t = trimmed(s);
    exists|i: int|
        #![trigger is_first_index(t, '@', i)]
        {
            let domain = t.subrange(i + 1, t.len() as int);
            &&& is_first_index(t, '@', i)
            &&& i > 0
            &&& domain.contains('.')
            &&& domain[0] != '.'
            &&& domain.last() != '.'
            &&& !t.contains(' ')
        }
}

/// Finds the first `c` in `s`.
pub fn find_char(s: &str, c: char) -> (r: Option<usize>)
    ensures
        r matches Some(i) ==> is_first_index(s@, c, i as int),
        r is None ==> !s@.contains(c),
{
    let n = s.unicode_len();
    let mut i: usize = 0;
    while i < n
        invariant
            n == s@.len(),
            i <= n,
            forall|k: int| 0 <= k < i ==> s@[k] != c,
        decreases n - i,
    {
        if s.get_char(i) == c {
            return Some(i);
        }
        i = i + 1;
    }
    None
}

/// Validate an e-mail address as the forms do (see [`spec_is_valid_email`]).
pub fn is_valid_email(email: &str) -> (r: bool)
    ensures
        r == spec_is_valid_email(email@),
{
    let t = trim(email);
    let ghost tv = t@;
    match find_char(t, '@') {
        None => {
            assert forall|i: int| !is_first_index(tv, '@', i) by {
                if is_first_index(tv, '@', i) {
                    assert(tv.contains('@'));
                }
            }
            false
        },
        Some(i) => {
            let n = t.unicode_len();
            let domain = t.substring_char(i + 1, n);
            let ok = i > 0 && contains_char(domain, '.') && domain.get_char(0) != '.'
                && domain.get_char(domain.unicode_len() - 1) != '.' && !contains_char(t, ' ');
            proof {
                assert forall|j: int| is_first_index(tv, '@', j) implies j == i by {
                    if j < i {
                        assert(tv[j] != '@');
                    }
                    if i < j {
                        assert(tv[i as int] != '@');
                    }
                }
                if domain@.contains('.') {
                    assert(domain@.len() > 0);
                }
            }
            ok
        },
    }
}

/// A character a username may hold: an ASCII letter or digit, `_` or `-`.
pub open spec fn is_username_char(c: char) -> bool {
    is_ascii_alnum(c) || c == '_' || c == '-'
}

/// 3 to 23 characters, each a letter, digit, underscore or hyphen.
pub open spec fn spec_is_valid_username(s: Seq<char>) -> bool {
    &&& 3 <= s.len() <= 23
    &&& forall|i: int| 0 <= i < s.len() ==> is_username_char(#[trigger] s[i])
}

/// Validate a username (see [`spec_is_valid_username`]).
pub fn is_valid_username(username: &str) -> (r: bool)
    ensures
        r == spec_is_valid_username(username@),
{
    let n = username.unicode_len();
    if n < 3 || n > 23 {
        return false;
    }
    let mut i: usize = 0;
    while i < n
        invariant
            n == username@.len(),
            i <= n,
            forall|k: int| 0 <= k < i ==> is_username_char(#[trigger] username@[k]),
        decreases n - i,
    {
        let c = username.get_char(i);
        if !(is_ascii_alnum_char(c) || c == '_' || c == '-') {
            return false;
        }
        i = i + 1;
    }
    true
}

/// Whether `c` is ASCII punctuation (`char::is_ascii_punctuation`).
pub open spec fn is_ascii_punct(c: char) -> bool {
    ('!' <= c <= '/') || (':' <= c <= '@') || ('[' <= c <= '`') || ('{' <= c <= '~')
}

/// Minimum password length, in characters.
pub const PASSWORD_MIN_LENGTH: usize = 8;

/// From this many characters on, a password needs no special character.
pub const PASSWORD_LENGTH_BONUS: usize = 12;

/// Which of the password rules a candidate password meets.
#[derive(Debug, Clone, Copy, PartialEq, Eq)]
pub struct PasswordRequirements {
    /// At least [`PASSWORD_MIN_LENGTH`] characters.
    pub min_length: bool,
    /// At least one ASCII capital letter.
    pub uppercase: bool,
    /// At least one ASCII small letter.
    pub lowercase: bool,
    /// At least one ASCII digit.
    pub digit: bool,
    /// At least one ASCII punctuation character, or at least
    /// [`PASSWORD_LENGTH_BONUS`] characters.
    pub special: bool,
}

impl PasswordRequirements {
    /// All five rules hold.
    pub open spec fn spec_is_sufficient(&self) -> bool {
        self.min_length && self.uppercase && self.lowercase && self.digit && self.special
    }

    /// Whether the password may be submitted.
    pub fn is_sufficient(&self) -> (r: bool)
        ensures
            r == self.spec_is_sufficient(),
    {
        self.min_length && self.uppercase && self.lowercase && self.digit && self.special
    }
}

/// The outcome of checking a password against the rules.
#[derive(Debug, Clone, Copy, PartialEq, Eq)]
pub struct PasswordValidation {
    /// Which rules hold.
    pub requirements: PasswordRequirements,
}

/// The rules that `s` meets.
pub open spec fn password_requirements(s: Seq<char>) -> PasswordRequirements {
    PasswordRequirements {
        min_length: s.len() >= PASSWORD_MIN_LENGTH,
        uppercase: exists|i: int| 0 <= i < s.len() && 'A' <= #[trigger] s[i] <= 'Z',
        lowercase: exists|i: int| 0 <= i < s.len() && 'a' <= #[trigger] s[i] <= 'z',
        digit: exists|i: int| 0 <= i < s.len() && is_ascii_digit(#[trigger] s[i]),
        special: s.len() >= PASSWORD_LENGTH_BONUS || exists|i: int|
            0 <= i < s.len() && is_ascii_punct(#[trigger] s[i]),
    }
}

/// Check a password against the rules.
pub fn validate_password(password: &str) -> (r: PasswordValidation)
    ensures
        r.requirements == password_requirements(password@),
{
    let n = password.unicode_len();
    let mut upper = false;
    let mut lower = false;
    let mut digit = false;
    let mut punct = false;
    let mut i: usize = 0;
    while i < n
        invariant
            n == password@.len(),
            i <= n,
            upper == exists|k: int| 0 <= k < i && 'A' <= #[trigger] password@[k] <= 'Z',
            lower == exists|k: int| 0 <= k < i && 'a' <= #[trigger] password@[k] <= 'z',
            digit == exists|k: int| 0 <= k < i && is_ascii_digit(#[trigger] password@[k]),
            punct == exists|k: int| 0 <= k < i && is_ascii_punct(#[trigger] password@[k]),
        decreases n - i,
    {
        let c = password.get_char(i);
        if 'A' <= c && c <= 'Z' {
            upper = true;
        }
        if 'a' <= c && c <= 'z' {
            lower = true;
        }
        if '0' <= c && c <= '9' {
            digit = true;
        }
        if ('!' <= c && c <= '/') || (':' <= c && c <= '@') || ('[' <= c && c <= '`') || ('{' <= c
            && c <= '~') {
            punct = true;
        }
        i = i + 1;
    }
    PasswordValidation {
        requirements: PasswordRequirements {
            min_length: n >= PASSWORD_MIN_LENGTH,
            uppercase: upper,
            lowercase: lower,
            digit,
            special: n >= PASSWORD_LENGTH_BONUS || punct,
        },
    }
}

/// The confirmation is non-empty and equal to the password.
pub open spec fn spec_passwords_match(password: Seq<char>, confirm: Seq<char>) -> bool {
    confirm.len() > 0 && password == confirm
}

/// Whether the confirmation field matches the password.
pub fn passwords_match(password: &str, confirm: &str) -> (r: bool)
    ensures
        r == spec_passwords_match(password@, confirm@),
{
    confirm.unicode_len() > 0 && text_eq(password, confirm)
}

/// White space around a UUID or an e-mail address never changes whether
/// it is accepted: checking the trimmed text gives the same answer.
pub proof fn lemma_validity_ignores_surrounding_space(s: Seq<char>)
    ensures
        spec_is_valid_uuid(trimmed(s)) == spec_is_valid_uuid(s),
        spec_is_valid_email(trimmed(s)) == spec_is_valid_email(s),
{
    lemma_trimmed_idempotent(s);
}

} // verus!
