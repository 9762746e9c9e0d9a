//! JSON text: the quoting of strings, and documents as values.

use vstd::prelude::*;

use crate::text::{chars_of, gather, str_eq};

verus! {

/// The lower-case hexadecimal digit for `n`, which is below sixteen.
pub open spec fn hex_digit(n: nat) -> char {
    if n < 10 {
        (48 + n) as u8 as char
    } else {
        (87 + n) as u8 as char
    }
}

/// How one scalar value stands inside a quoted JSON string: the quote, the
/// backslash and the control characters are escaped, the control characters
/// without a short form as `\u00` and two hexadecimal digits; every other
/// scalar value stands for itself.
pub open spec fn escape(c: char) -> Seq<char> {
    if c == '"' {
        seq!['\\', '"']
    } else if c == '\\' {
        seq!['\\', '\\']
    } else if c == '\u{8}' {
        seq!['\\', 'b']
    } else if c == '\u{c}' {
        seq!['\\', 'f']
    } else if c == '\n' {
        seq!['\\', 'n']
    } else if c == '\r' {
        seq!['\\', 'r']
    } else if c == '\t' {
        seq!['\\', 't']
    } else if (c as u32) < 0x20 {
        seq!['\\', 'u', '0', '0', hex_digit(c as nat / 16), hex_digit(c as nat % 16)]
    } else {
        seq![c]
    }
}

/// The scalar values of `s`, each as it stands inside a quoted JSON string.
pub open spec fn escaped(s: Seq<char>) -> Seq<char> {
    gather(s, |c: char| escape(c))
}

/// `s` as a JSON string: escaped, between two quotes.
pub open spec fn json_quoted(s: Seq<char>) -> Seq<char> {
    seq!['"'] + escaped(s) + seq!['"']
}

/// `serde_json::to_string` on a string slice: the slice as a JSON string.
/// The call writes a string into a byte vector, which has no step that
/// fails, so the result is always there.
#[verifier::external_body]
fn to_json_string(s: &str) -> (r: Option<String>)
    ensures
        r is Some,
        r matches Some(quoted) ==> quoted@ == json_quoted(s@),
{
    serde_json::to_string(s).ok()
}

/// `s` as a JSON string.
pub fn quoted(s: &str) -> (text: String)
    ensures
        text@ == json_quoted(s@),
{
    match to_json_string(s) {
        Some(text) => text,
        None => {
            assert(false);
            String::new()
        },
    }
}

/// A JSON document.
///
/// A number is held as the decimal text that stands for it. An object holds
/// its members as pairs of key and value; of two members with one key, the
/// first counts.
#[derive(Debug, PartialEq, Eq)]
pub enum Json {
    Null,
    Bool(bool),
    Number(String),
    Text(String),
    Array(Vec<Json>),
    Object(Vec<(String, Json)>),
}

/// The value of the first member named `key` among `members`.
pub open spec fn member_of(members: Seq<(String, Json)>, key: Seq<char>) -> Option<Json>
    decreases members.len(),
{
    if members.len() == 0 {
        None
    } else if members[0].0@ == key {
        Some(members[0].1)
    } else {
        member_of(members.drop_first(), key)
    }
}

/// The value of a decimal digit.
pub open spec fn digit_of(c: char) -> Option<nat> {
    if '0' <= c <= '9' {
        Some((c as nat - 48) as nat)
    } else {
        None
    }
}

/// The value of a decimal digit, `None` for any other scalar value.
pub fn digit_value(c: char) -> (digit: Option<u8>)
    ensures
        match digit_of(c) {
            Some(d) => digit == Some(d as u8) && d < 10,
            None => digit is None,
        },
{
    let code = c as u32;
    if 48 <= code && code <= 57 {
        Some((code - 48) as u8)
    } else {
        None
    }
}

/// The scalar values of `s`, where they are decimal digits, as a number.
pub open spec fn decimal_value(s: Seq<char>) -> Option<nat>
    decreases s.len(),
{
    if s.len() == 0 {
        None
    } else {
        match digit_of(s.last()) {
            None => None,
            Some(low) => if s.len() == 1 {
                Some(low)
            } else {
                match decimal_value(s.drop_last()) {
                    Some(high) => Some(10 * high + low),
                    None => None,
                }
            },
        }
    }
}

impl Json {
    /// The value of the member named `key`, where the document is an object
    /// that has one.
    pub open spec fn member(self, key: Seq<char>) -> Option<Json> {
        match self {
            Json::Object(members) => member_of(members@, key),
            _ => None,
        }
    }

    /// The text of the document, where it is a string.
    pub open spec fn text(self) -> Option<Seq<char>> {
        match self {
            Json::Text(text) => Some(text@),
            _ => None,
        }
    }

    /// The text of the member named `key`, where the document is an object
    /// with such a member and the member is a string.
    pub open spec fn text_member(self, key: Seq<char>) -> Option<Seq<char>> {
        match self.member(key) {
            Some(value) => value.text(),
            None => None,
        }
    }

    /// The number that the document stands for, where it is a whole number
    /// from zero to `u32::MAX`, written in digits alone.
    pub open spec fn as_u32(self) -> Option<u32> {
        match self {
            Json::Number(digits) => match decimal_value(digits@) {
                Some(value) => if value <= u32::MAX {
                    Some(value as u32)
                } else {
                    None
                },
                None => None,
            },
            _ => None,
        }
    }

    /// The value of the member named `key`, where the document is an object
    /// that has one.
    #[verifier::loop_isolation(false)]
    pub fn get(&self, key: &str) -> (value: Option<&Json>)
        ensures
            match self.member(key@) {
                Some(found) => value == Some(&found),
                None => value is None,
            },
    {
        match self {
            Json::Object(members) => {
                let mut i: usize = 0;
                assert(members@.skip(0) == members@);
                while i < members.len()
                    invariant
                        i <= members.len(),
                        member_of(members@, key@) == member_of(members@.skip(i as int), key@),
                    decreases members.len() - i,
                {
                    let ghost rest = members@.skip(i as int);
                    assert(rest[0] == members@[i as int]);
                    assert(rest.drop_first() == members@.skip(i + 1));
                    if str_eq(members[i].0.as_str(), key) {
                        return Some(&members[i].1);
                    }
                    i += 1;
                }
                None
            },
            _ => None,
        }
    }

    /// The text of the document, where it is a string.
    pub fn as_str(&self) -> (text: Option<&str>)
        ensures
            match self.text() {
                Some(found) => text matches Some(t) && t@ == found,
                None => text is None,
            },
    {
        match self {
            Json::Text(text) => Some(text.as_str()),
            _ => None,
        }
    }

    /// The text of the member named `key`, where it is a string.
    pub fn get_str(&self, key: &str) -> (text: Option<&str>)
        ensures
            match self.text_member(key@) {
                Some(found) => text matches Some(t) && t@ == found,
                None => text is None,
            },
    {
        match self.get(key) {
            Some(value) => value.as_str(),
            None => None,
        }
    }

    /// The number that the document stands for, where it is a whole number
    /// from zero to `u32::MAX`, written in digits alone.
    #[verifier::loop_isolation(false)]
    pub fn to_u32(&self) -> (number: Option<u32>)
        ensures
            number == self.as_u32(),
    {
        match self {
            Json::Number(digits) => {
                let v = chars_of(digits.as_str());
                if v.len() == 0 {
                    return None;
                }
                let mut value: u64 = 0;
                let mut i: usize = 0;
                while i < v.len()
                    invariant
                        i <= v.len(),
                        v@ == digits@,
                        v.len() > 0,
                        value <= u32::MAX,
                        i > 0 ==> decimal_value(v@.take(i as int)) == Some(value as nat),
                        i == 0 ==> value == 0,
                    decreases v.len() - i,
                {
                    let c = v[i];
                    let ghost prefix = v@.take(i + 1);
                    assert(prefix.drop_last() == v@.take(i as int));
                    assert(prefix.last() == c);
                    let digit = match digit_value(c) {
                        Some(digit) => digit,
                        None => {
                            proof {
                                lemma_decimal_prefix(v@, i + 1);
                            }
                            return None;
                        },
                    };
                    let next = value * 10 + digit as u64;
                    if next > 0xFFFF_FFFF {
                        proof {
                            lemma_decimal_reaches(v@, i + 1, 0xFFFF_FFFF);
                        }
                        return None;
                    }
                    value = next;
                    i += 1;
                }
                assert(v@.take(v.len() as int) == v@);
                Some(value as u32)
            },
            _ => None,
        }
    }
}

/// Digits that are no number up to some length are no number at all.
pub proof fn lemma_decimal_prefix(s: Seq<char>, n: int)
    requires
        0 < n <= s.len(),
        decimal_value(s.take(n)) is None,
    ensures
        decimal_value(s) is None,
    decreases s.len() - n,
{
    if n < s.len() {
        assert(s.take(n + 1).drop_last() == s.take(n));
        lemma_decimal_prefix(s, n + 1);
    } else {
        assert(s.take(n) == s);
    }
}

/// A number does not shrink as digits follow: digits whose value is beyond
/// `limit` up to some length stay beyond it.
pub proof fn lemma_decimal_reaches(s: Seq<char>, n: int, limit: nat)
    requires
        0 < n <= s.len(),
        decimal_value(s.take(n)) matches Some(value) && value > limit,
    ensures
        decimal_value(s) matches Some(value) ==> value > limit,
    decreases s.len() - n,
{
    if n < s.len() {
        assert(s.take(n + 1).drop_last() == s.take(n));
        if decimal_value(s.take(n + 1)) is Some {
            lemma_decimal_reaches(s, n + 1, limit);
        } else {
            lemma_decimal_prefix(s, n + 1);
        }
    } else {
        assert(s.take(n) == s);
    }
}

} // verus!
