//! The session cookie: its attributes, and the text form of the session id
//! it carries.
//!
//! A session id is written as thirty-two lower-case hexadecimal digits,
//! the most significant first. Each id has exactly one text form, and any
//! other text names no session.

use vstd::prelude::*;
use vstd::string::StringExecFns;

verus! {

/// When a browser sends the cookie along with a request from another site.
#[derive(Clone, Copy, Debug, PartialEq, Eq, Structural)]
pub enum SameSite {
    Strict,
    Lax,
    Unrestricted,
}

/// The attributes of the one cookie that carries the session id.
#[derive(Clone, Copy, Debug)]
pub struct SessionCookie {
    /// The cookie is kept from scripts.
    pub http_only: bool,
    /// The cookie is sent over HTTPS only.
    pub secure: bool,
    /// The cookie is sent for every path from `/` down.
    pub path: &'static str,
    pub same_site: SameSite,
}

/// The session cookie: kept from scripts always, sent for the whole site,
/// sent along from other sites only when the visitor navigates, and
/// limited to HTTPS as configured.
pub fn session_cookie(secure: bool) -> (cookie: SessionCookie)
    ensures
        cookie.http_only,
        cookie.secure == secure,
        cookie.path@ == "/"@,
        cookie.same_site == SameSite::Lax,
{
    SessionCookie { http_only: true, secure, path: "/", same_site: SameSite::Lax }
}

/// The number of digits in the text form of a session id.
pub const SESSION_ID_DIGITS: usize = 32;

/// The character for a hexadecimal digit.
pub open spec fn digit_char(digit: nat) -> char {
    if digit < 10 {
        (('0' as u8) + digit) as char
    } else {
        (('a' as u8) + digit - 10) as char
    }
}

/// The hexadecimal digit that a character stands for, if it stands for
/// one. Upper-case letters stand for none.
pub open spec fn digit_value(c: char) -> Option<nat> {
    if '0' <= c <= '9' {
        Some((c as u8 - '0' as u8) as nat)
    } else if 'a' <= c <= 'f' {
        Some((c as u8 - 'a' as u8 + 10) as nat)
    } else {
        None
    }
}

/// Every character of the text is a hexadecimal digit.
pub open spec fn all_digits(text: Seq<char>) -> bool {
    forall|i: int| 0 <= i < text.len() ==> (#[trigger] digit_value(text[i])) is Some
}

/// The `count` lowest hexadecimal digits of `number`, the most significant
/// first.
pub open spec fn hex_text(number: nat, count: nat) -> Seq<char>
    decreases count,
{
    if count == 0 {
        Seq::empty()
    } else {
        hex_text(number / 16, (count - 1) as nat).push(digit_char(number % 16))
    }
}

/// The number that a text of hexadecimal digits stands for.
pub open spec fn hex_number(text: Seq<char>) -> nat
    decreases text.len(),
{
    if text.len() == 0 {
        0
    } else {
        hex_number(text.drop_last()) * 16 + digit_value(text.last())->Some_0
    }
}

/// Sixteen to the power of `n`.
pub open spec fn pow16(n: nat) -> nat
    decreases n,
{
    if n == 0 {
        1
    } else {
        16 * pow16((n - 1) as nat)
    }
}

/// The text form of a session id.
pub open spec fn session_id_text(id: nat) -> Seq<char> {
    hex_text(id, SESSION_ID_DIGITS as nat)
}

/// The session id that a text names: the text must have exactly
/// `SESSION_ID_DIGITS` characters, each a hexadecimal digit.
pub open spec fn parsed_session_id(text: Seq<char>) -> Option<nat> {
    if text.len() == SESSION_ID_DIGITS && all_digits(text) {
        Some(hex_number(text))
    } else {
        None
    }
}

/// A digit and its character stand for each other.
pub proof fn lemma_digit_round_trip(digit: nat)
    requires
        digit < 16,
    ensures
        digit_value(digit_char(digit)) == Some(digit),
{
}

/// A character that is a digit is the character of its digit.
pub proof fn lemma_char_round_trip(c: char)
    requires
        digit_value(c) is Some,
    ensures
        digit_value(c)->Some_0 < 16,
        digit_char(digit_value(c)->Some_0) == c,
{
}

/// The text of a number has as many characters as asked for, all of them
/// digits.
pub proof fn lemma_hex_text_shape(number: nat, count: nat)
    ensures
        hex_text(number, count).len() == count,
        all_digits(hex_text(number, count)),
    decreases count,
{
    if count > 0 {
        lemma_hex_text_shape(number / 16, (count - 1) as nat);
        lemma_digit_round_trip(number % 16);
        let front = hex_text(number / 16, (count - 1) as nat);
        let text = hex_text(number, count);
        assert forall|i: int| 0 <= i < text.len() implies (#[trigger] digit_value(text[i]))
            is Some by {
            if i < front.len() {
                assert(text[i] == front[i]);
            }
        }
    }
}

/// A number below sixteen to the `count` is read back from its text of
/// `count` digits.
pub proof fn lemma_number_of_text(number: nat, count: nat)
    requires
        number < pow16(count),
    ensures
        hex_number(hex_text(number, count)) == number,
    decreases count,
{
    if count > 0 {
        let front = hex_text(number / 16, (count - 1) as nat);
        let text = hex_text(number, count);
        lemma_number_of_text(number / 16, (count - 1) as nat);
        lemma_digit_round_trip(number % 16);
        assert(text.drop_last() =~= front);
        assert(text.last() == digit_char(number % 16));
    } else {
        assert(hex_text(number, count).len() == 0);
    }
}

/// A text of digits stands for a number below sixteen to its length, and
/// is the text of that number.
pub proof fn lemma_text_of_number(text: Seq<char>)
    requires
        all_digits(text),
    ensures
        hex_number(text) < pow16(text.len()),
        hex_text(hex_number(text), text.len()) == text,
    decreases text.len(),
{
    if text.len() > 0 {
        let front = text.drop_last();
        let digit = digit_value(text.last())->Some_0;
        assert forall|i: int| 0 <= i < front.len() implies (#[trigger] digit_value(front[i]))
            is Some by {
            assert(front[i] == text[i]);
        }
        lemma_text_of_number(front);
        lemma_char_round_trip(text.last());
        let number = hex_number(text);
        assert(number == hex_number(front) * 16 + digit);
        assert(number / 16 == hex_number(front));
        assert(number % 16 == digit);
        assert(hex_text(number, text.len()) =~= hex_text(hex_number(front), front.len()).push(
            digit_char(digit),
        ));
        assert(front.push(text.last()) =~= text);
    } else {
        assert(hex_text(hex_number(text), text.len()) =~= text);
    }
}

/// Sixteen to the thirty-second is one more than the largest session id.
pub proof fn lemma_pow16_of_id_digits()
    ensures
        pow16(SESSION_ID_DIGITS as nat) == u128::MAX + 1,
{
    reveal_with_fuel(pow16, 33);
}

/// The powers of sixteen grow with the exponent.
pub proof fn lemma_pow16_grows(low: nat, high: nat)
    requires
        low <= high,
    ensures
        0 < pow16(low) <= pow16(high),
    decreases high,
{
    if low < high {
        lemma_pow16_grows(low, (high - 1) as nat);
    } else if low > 0 {
        lemma_pow16_grows((low - 1) as nat, (low - 1) as nat);
    }
}

/// The text form of a session id names that id and no other.
pub proof fn lemma_text_names_its_id(id: nat)
    requires
        id <= u128::MAX,
    ensures
        parsed_session_id(session_id_text(id)) == Some(id),
{
    lemma_pow16_of_id_digits();
    lemma_hex_text_shape(id, SESSION_ID_DIGITS as nat);
    lemma_number_of_text(id, SESSION_ID_DIGITS as nat);
}

/// A text that names a session id is the text form of that id: an id has
/// one text form only, and the id is one that fits a session id.
pub proof fn lemma_named_id_has_this_text(text: Seq<char>)
    requires
        parsed_session_id(text) is Some,
    ensures
        parsed_session_id(text)->Some_0 <= u128::MAX,
        session_id_text(parsed_session_id(text)->Some_0) == text,
{
    lemma_pow16_of_id_digits();
    lemma_text_of_number(text);
}

/// The one-character text of a hexadecimal digit.
fn digit_text(digit: u8) -> (text: &'static str)
    requires
        digit < 16,
    ensures
        text@ == seq![digit_char(digit as nat)],
{
    proof {
        reveal_strlit("0");
        reveal_strlit("1");
        reveal_strlit("2");
        reveal_strlit("3");
        reveal_strlit("4");
        reveal_strlit("5");
        reveal_strlit("6");
        reveal_strlit("7");
        reveal_strlit("8");
        reveal_strlit("9");
        reveal_strlit("a");
        reveal_strlit("b");
        reveal_strlit("c");
        reveal_strlit("d");
        reveal_strlit("e");
        reveal_strlit("f");
    }
    let text = if digit == 0 {
        "0"
    } else if digit == 1 {
        "1"
    } else if digit == 2 {
        "2"
    } else if digit == 3 {
        "3"
    } else if digit == 4 {
        "4"
    } else if digit == 5 {
        "5"
    } else if digit == 6 {
        "6"
    } else if digit == 7 {
        "7"
    } else if digit == 8 {
        "8"
    } else if digit == 9 {
        "9"
    } else if digit == 10 {
        "a"
    } else if digit == 11 {
        "b"
    } else if digit == 12 {
        "c"
    } else if digit == 13 {
        "d"
    } else if digit == 14 {
        "e"
    } else {
        "f"
    };
    assert(text@ =~= seq![digit_char(digit as nat)]);
    text
}

/// Appends the `count` lowest hexadecimal digits of `number` to `text`,
/// the most significant first.
fn push_hex(text: &mut String, number: u128, count: u8)
    ensures
        final(text)@ == old(text)@ + hex_text(number as nat, count as nat),
    decreases count,
{
    if count > 0 {
        push_hex(text, number / 16, count - 1);
        text.append(digit_text((number % 16) as u8));
        proof {
            let front = hex_text((number / 16) as nat, (count - 1) as nat);
            assert(old(text)@ + front + seq![digit_char((number % 16) as nat)] =~= old(text)@
                + front.push(digit_char((number % 16) as nat)));
        }
    } else {
        assert(text@ =~= old(text)@ + hex_text(number as nat, count as nat));
    }
}

/// Writes a session id in its text form.
pub fn encode_session_id(id: u128) -> (text: String)
    ensures
        text@ == session_id_text(id as nat),
{
    let mut text = String::new();
    push_hex(&mut text, id, 32);
    assert(text@ =~= session_id_text(id as nat));
    text
}

/// Reads a session id from the text of a cookie.
///
/// Only the text form of a session id names one: a text of another
/// length, or with a character that is no lower-case hexadecimal digit,
/// gives `None`.
pub fn decode_session_id(text: &str) -> (id: Option<u128>)
    ensures
        match id {
            Some(id) => parsed_session_id(text@) == Some(id as nat),
            None => parsed_session_id(text@) is None,
        },
{
    if !text.is_ascii() {
        proof {
            let i = choose|i: int|
                0 <= i < text@.len() && !('\0' <= #[trigger] text@[i] <= '\u{7f}');
            assert(digit_value(text@[i]) is None);
        }
        return None;
    }
    let bytes = text.as_bytes();
    proof {
        vstd::string::is_ascii_spec_bytes(text);
    }
    if bytes.len() != SESSION_ID_DIGITS {
        return None;
    }
    let mut number: u128 = 0;
    let mut i: usize = 0;
    proof {
        lemma_pow16_of_id_digits();
        assert(text@.take(0) =~= Seq::<char>::empty());
    }
    while i < SESSION_ID_DIGITS
        invariant
            i <= SESSION_ID_DIGITS,
            text@.len() == SESSION_ID_DIGITS,
            bytes@.len() == SESSION_ID_DIGITS,
            forall|j: int| 0 <= j < text@.len() ==> '\0' <= #[trigger] text@[j] <= '\u{7f}',
            forall|j: int| 0 <= j < text@.len() ==> text@[j] as u8 == #[trigger] bytes@[j],
            all_digits(text@.take(i as int)),
            number == hex_number(text@.take(i as int)),
            number < pow16(i as nat),
            pow16(SESSION_ID_DIGITS as nat) == u128::MAX + 1,
        decreases SESSION_ID_DIGITS - i,
    {
        let byte = bytes[i];
        let ghost c = text@[i as int];
        let digit: u8 = if 48 <= byte && byte <= 57 {
            byte - 48
        } else if 97 <= byte && byte <= 102 {
            byte - 97 + 10
        } else {
            proof {
                assert(c as u8 == byte);
                assert(digit_value(c) is None);
            }
            return None;
        };
        proof {
            assert(c as u8 == byte);
            assert(digit_value(c) == Some(digit as nat));
            let before = text@.take(i as int);
            let after = text@.take(i + 1);
            assert(after.drop_last() =~= before);
            assert(after.last() == c);
            assert forall|j: int| 0 <= j < after.len() implies (#[trigger] digit_value(after[j]))
                is Some by {
                if j < before.len() {
                    assert(after[j] == before[j]);
                }
            }
            lemma_pow16_grows((i + 1) as nat, SESSION_ID_DIGITS as nat);
            assert(pow16((i + 1) as nat) == 16 * pow16(i as nat));
        }
        number = number * 16 + digit as u128;
        i += 1;
    }
    proof {
        assert(text@.take(SESSION_ID_DIGITS as int) =~= text@);
    }
    Some(number)
}

} // verus!
