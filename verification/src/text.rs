//! Rendering of diagnostics: decimal and hexadecimal numbers, byte lists, and
//! concatenation, each with the exact text it produces.
use vstd::prelude::*;

verus! {

/// The decimal digit `d`, for `d` below ten.
pub open spec fn digit(d: nat) -> Seq<char> {
    if d == 0 {
        "0"@
    } else if d == 1 {
        "1"@
    } else if d == 2 {
        "2"@
    } else if d == 3 {
        "3"@
    } else if d == 4 {
        "4"@
    } else if d == 5 {
        "5"@
    } else if d == 6 {
        "6"@
    } else if d == 7 {
        "7"@
    } else if d == 8 {
        "8"@
    } else {
        "9"@
    }
}

/// `n` in decimal, without leading zeros.
pub open spec fn decimal(n: nat) -> Seq<char>
    decreases n,
{
    if n < 10 {
        digit(n)
    } else {
        decimal(n / 10) + digit(n % 10)
    }
}

/// The lower-case hexadecimal digit `d`, for `d` below sixteen.
pub open spec fn hex_digit(d: nat) -> Seq<char> {
    if d < 10 {
        digit(d)
    } else if d == 10 {
        "a"@
    } else if d == 11 {
        "b"@
    } else if d == 12 {
        "c"@
    } else if d == 13 {
        "d"@
    } else if d == 14 {
        "e"@
    } else {
        "f"@
    }
}

/// Two lower-case hexadecimal digits per byte, in order.
pub open spec fn hex(bytes: Seq<u8>) -> Seq<char>
    decreases bytes.len(),
{
    if bytes.len() == 0 {
        ""@
    } else {
        hex(bytes.drop_last()) + hex_digit(bytes.last() as nat / 16) + hex_digit(
            bytes.last() as nat % 16,
        )
    }
}

/// The elements of a byte list in decimal, separated by a comma and a space.
pub open spec fn byte_items(bytes: Seq<u8>) -> Seq<char>
    decreases bytes.len(),
{
    if bytes.len() == 0 {
        ""@
    } else if bytes.len() == 1 {
        decimal(bytes[0] as nat)
    } else {
        byte_items(bytes.drop_last()) + ", "@ + decimal(bytes.last() as nat)
    }
}

/// A byte list in brackets.
pub open spec fn byte_list(bytes: Seq<u8>) -> Seq<char> {
    "["@ + byte_items(bytes) + "]"@
}

/// A named tuple of one number, such as `LeaseEpoch(3)`.
pub open spec fn tagged(name: Seq<char>, n: nat) -> Seq<char> {
    name + "("@ + decimal(n) + ")"@
}

/// `a` followed by `b`.
pub fn join(a: &str, b: &str) -> (r: String)
    ensures
        r@ == a@ + b@,
{
    a.to_owned().concat(b)
}

/// `a`, `b` and `c` in order.
pub fn join3(a: &str, b: &str, c: &str) -> (r: String)
    ensures
        r@ == a@ + b@ + c@,
{
    join(a, b).concat(c)
}

fn digit_text(d: u64) -> (r: &'static str)
    requires
        d < 10,
    ensures
        r@ == digit(d as nat),
{
    if d == 0 {
        "0"
    } else if d == 1 {
        "1"
    } else if d == 2 {
        "2"
    } else if d == 3 {
        "3"
    } else if d == 4 {
        "4"
    } else if d == 5 {
        "5"
    } else if d == 6 {
        "6"
    } else if d == 7 {
        "7"
    } else if d == 8 {
        "8"
    } else {
        "9"
    }
}

fn hex_digit_text(d: u8) -> (r: &'static str)
    requires
        d < 16,
    ensures
        r@ == hex_digit(d as nat),
{
    if d < 10 {
        digit_text(d as u64)
    } else if d == 10 {
        "a"
    } else if d == 11 {
        "b"
    } else if d == 12 {
        "c"
    } else if d == 13 {
        "d"
    } else if d == 14 {
        "e"
    } else {
        "f"
    }
}

/// `n` in decimal.
pub fn decimal_text(n: u64) -> (r: String)
    ensures
        r@ == decimal(n as nat),
    decreases n,
{
    if n < 10 {
        digit_text(n).to_owned()
    } else {
        decimal_text(n / 10).concat(digit_text(n % 10))
    }
}

/// Lower-case hexadecimal rendering of `bytes`.
pub fn hex_text(bytes: &[u8]) -> (r: String)
    ensures
        r@ == hex(bytes@),
{
    let mut r = "".to_owned();
    let mut i: usize = 0;
    while i < bytes.len()
        invariant
            i <= bytes.len(),
            r@ == hex(bytes@.take(i as int)),
        decreases bytes.len() - i,
    {
        let b: u8 = bytes[i];
        proof {
            assert(bytes@.take(i + 1).drop_last() =~= bytes@.take(i as int));
        }
        r = r.concat(hex_digit_text(b / 16)).concat(hex_digit_text(b % 16));
        i += 1;
    }
    proof {
        assert(bytes@.take(i as int) =~= bytes@);
    }
    r
}

/// `bytes` as a bracketed list of decimal numbers.
pub fn byte_list_text(bytes: &[u8]) -> (r: String)
    ensures
        r@ == byte_list(bytes@),
{
    let mut r = "".to_owned();
    let mut i: usize = 0;
    while i < bytes.len()
        invariant
            i <= bytes.len(),
            r@ == byte_items(bytes@.take(i as int)),
        decreases bytes.len() - i,
    {
        let b: u8 = bytes[i];
        proof {
            assert(bytes@.take(i + 1).drop_last() =~= bytes@.take(i as int));
        }
        if i == 0 {
            r = decimal_text(b as u64);
        } else {
            r = r.concat(", ").concat(decimal_text(b as u64).as_str());
        }
        i += 1;
    }
    proof {
        assert(bytes@.take(i as int) =~= bytes@);
    }
    join3("[", r.as_str(), "]")
}

/// A name followed by one number in parentheses.
pub fn tagged_text(name: &str, n: u64) -> (r: String)
    ensures
        r@ == tagged(name@, n as nat),
{
    join3(name, "(", decimal_text(n).as_str()).concat(")")
}

/// The text a lossy UTF-8 decoding of `bytes` produces.
pub uninterp spec fn utf8_lossy(bytes: Seq<u8>) -> Seq<char>;

/// Decode `bytes` as UTF-8 for a diagnostic, replacing what is not.
///
/// Wraps `String::from_utf8_lossy`. The claim is only that the text is a
/// function of the bytes; which replacement characters appear is not stated.
#[verifier::external_body]
pub(crate) fn lossy_text(bytes: &[u8]) -> (r: String)
    ensures
        r@ == utf8_lossy(bytes@),
{
    String::from_utf8_lossy(bytes).into_owned()
}

/// The quoted, escaped rendering of a text.
pub uninterp spec fn quoted(text: Seq<char>) -> Seq<char>;

/// Quote and escape a text for a diagnostic.
///
/// Wraps the `Debug` rendering of `str`. The claim is only that the result is a
/// function of the text; which characters are escaped is not stated.
#[verifier::external_body]
pub(crate) fn quoted_text(text: &str) -> (r: String)
    ensures
        r@ == quoted(text@),
{
    format!("{:?}", text)
}

/// Why bytes that are not UTF-8 are not.
pub uninterp spec fn utf8_fault(bytes: Seq<u8>) -> Seq<char>;

/// Read bytes as UTF-8, or say why they are not.
///
/// Wraps `std::str::from_utf8`, which succeeds exactly on valid UTF-8 and then
/// yields the text those bytes encode. Of the reason it gives otherwise the claim
/// is only that it is a function of the bytes; its wording is not stated.
#[verifier::external_body]
pub(crate) fn utf8_text(bytes: &[u8]) -> (r: Result<String, String>)
    ensures
        r is Ok <==> vstd::utf8::valid_utf8(bytes@),
        r matches Ok(text) ==> text@ == vstd::utf8::decode_utf8(bytes@),
        r matches Err(reason) ==> reason@ == utf8_fault(bytes@),
{
    match std::str::from_utf8(bytes) {
        Ok(text) => Ok(text.to_owned()),
        Err(error) => Err(error.to_string()),
    }
}

/// An optional number, as `Some(n)` or `None`.
pub open spec fn optional_number(value: Option<u64>) -> Seq<char> {
    match value {
        Some(n) => "Some("@ + decimal(n as nat) + ")"@,
        None => "None"@,
    }
}

/// An optional number, as `Some(n)` or `None`.
pub fn optional_number_text(value: Option<u64>) -> (r: String)
    ensures
        r@ == optional_number(value),
{
    match value {
        Some(n) => join3("Some(", decimal_text(n).as_str(), ")"),
        None => "None".to_owned(),
    }
}

/// Whether `part` stands in `text` at `at`.
pub open spec fn stands_at(text: Seq<char>, part: Seq<char>, at: int) -> bool {
    0 <= at && at + part.len() <= text.len() && text.subrange(at, at + part.len()) == part
}

/// Whether `part` stands anywhere in `text`.
pub open spec fn holds(text: Seq<char>, part: Seq<char>) -> bool {
    exists|at: int| stands_at(text, part, at)
}

/// Whether `part` stands anywhere in `text`.
pub fn holds_text(text: &str, part: &str) -> (r: bool)
    ensures
        r == holds(text@, part@),
{
    let text_len: usize = text.unicode_len();
    let part_len: usize = part.unicode_len();
    if part_len > text_len {
        return false;
    }
    let mut at: usize = 0;
    while at <= text_len - part_len
        invariant
            text_len == text@.len(),
            part_len == part@.len(),
            part_len <= text_len,
            at <= text_len - part_len + 1,
            forall|i: int| 0 <= i < at ==> !stands_at(text@, part@, i),
        decreases text_len - at,
    {
        let mut i: usize = 0;
        while i < part_len && text.get_char(at + i) == part.get_char(i)
            invariant
                text_len == text@.len(),
                part_len == part@.len(),
                at + part_len <= text_len,
                i <= part_len,
                forall|j: int| 0 <= j < i ==> text@[at + j] == part@[j],
            decreases part_len - i,
        {
            i += 1;
        }
        if i == part_len {
            proof {
                assert(text@.subrange(at as int, at + part_len) =~= part@);
                assert(stands_at(text@, part@, at as int));
            }
            return true;
        }
        proof {
            if stands_at(text@, part@, at as int) {
                assert(text@.subrange(at as int, at + part_len)[i as int] == part@[i as int]);
            }
        }
        if at == text_len - part_len {
            return false;
        }
        at += 1;
    }
    false
}

/// A byte that is an ASCII decimal digit.
pub open spec fn is_digit(b: u8) -> bool {
    48 <= b <= 57
}

/// The number a string of ASCII digits denotes.
pub open spec fn digits_value(bytes: Seq<u8>) -> nat
    decreases bytes.len(),
{
    if bytes.len() == 0 {
        0
    } else {
        digits_value(bytes.drop_last()) * 10 + (bytes.last() - 48) as nat
    }
}

/// Whether every byte is an ASCII decimal digit.
pub open spec fn all_digits(bytes: Seq<u8>) -> bool {
    forall|i: int| 0 <= i < bytes.len() ==> is_digit(#[trigger] bytes[i])
}

/// The `u32` a string of digits denotes: at least one digit, nothing else, and a
/// value that fits.
pub open spec fn parse_digits(digits: Seq<u8>) -> Option<u32> {
    if digits.len() > 0 && all_digits(digits) && digits_value(digits) <= u32::MAX {
        Some(digits_value(digits) as u32)
    } else {
        None
    }
}

/// The digits of a decimal rendering: what follows an optional leading plus sign.
pub open spec fn without_plus(bytes: Seq<u8>) -> Seq<u8> {
    if bytes.len() > 0 && bytes[0] == 43 {
        bytes.skip(1)
    } else {
        bytes
    }
}

/// The `u32` a decimal rendering denotes.
pub open spec fn parse_number(bytes: Seq<u8>) -> Option<u32> {
    parse_digits(without_plus(bytes))
}

proof fn digits_value_grows(bytes: Seq<u8>, n: int)
    requires
        0 <= n <= bytes.len(),
        all_digits(bytes),
    ensures
        digits_value(bytes.take(n)) <= digits_value(bytes),
    decreases bytes.len(),
{
    if n == bytes.len() {
        assert(bytes.take(n) =~= bytes);
    } else {
        assert forall|i: int| 0 <= i < bytes.drop_last().len() implies is_digit(
            #[trigger] bytes.drop_last()[i],
        ) by {
            assert(is_digit(bytes[i]));
        }
        digits_value_grows(bytes.drop_last(), n);
        assert(bytes.drop_last().take(n) =~= bytes.take(n));
    }
}

/// Read a decimal `u32`.
pub fn parse_u32(bytes: &[u8]) -> (r: Option<u32>)
    ensures
        r == parse_number(bytes@),
{
    let start: usize = if bytes.len() > 0 && bytes[0] == 43 {
        1
    } else {
        0
    };
    let ghost digits = without_plus(bytes@);
    if bytes.len() == start {
        return None;
    }
    let mut value: u64 = 0;
    let mut i: usize = start;
    proof {
        assert(digits.take(0) =~= Seq::<u8>::empty());
    }
    while i < bytes.len()
        invariant
            start <= i <= bytes@.len(),
            start == 0 || start == 1,
            digits.len() == bytes@.len() - start,
            forall|k: int| 0 <= k < digits.len() ==> digits[k] == bytes@[k + start],
            forall|k: int| 0 <= k < i - start ==> is_digit(#[trigger] digits[k]),
            value == digits_value(digits.take(i - start)),
            value <= u32::MAX,
            digits == without_plus(bytes@),
        decreases bytes@.len() - i,
    {
        let b: u8 = bytes[i];
        proof {
            assert(digits[i - start] == b);
        }
        if b < 48 || b > 57 {
            proof {
                assert(!is_digit(digits[i - start]));
            }
            return None;
        }
        value = value * 10 + (b - 48) as u64;
        proof {
            assert(digits.take(i - start + 1).drop_last() =~= digits.take(i - start));
        }
        if value > u32::MAX as u64 {
            proof {
                if all_digits(digits) {
                    digits_value_grows(digits, i - start + 1);
                }
            }
            return None;
        }
        i += 1;
    }
    proof {
        assert(digits.take(i - start) =~= digits);
    }
    Some(value as u32)
}

/// The digits of a number denote it.
proof fn digits_denote(n: nat)
    ensures
        ({
            let bytes = vstd::utf8::encode_utf8(decimal(n));
            &&& vstd::utf8::is_ascii_chars(decimal(n))
            &&& bytes.len() == decimal(n).len() > 0
            &&& all_digits(bytes)
            &&& digits_value(bytes) == n
        }),
    decreases n,
{
    reveal_strlit("0");
    reveal_strlit("1");
    reveal_strlit("2");
    reveal_strlit("3");
    reveal_strlit("4");
    reveal_strlit("5");
    reveal_strlit("6");
    reveal_strlit("7");
    reveal_strlit("8");
    reveal_strlit("9");
    let text = decimal(n);
    let last = digit(n % 10);
    assert(last.len() == 1 && last[0] as u8 == 48 + n % 10 && '0' <= last[0] <= '9');
    if n < 10 {
        assert(vstd::utf8::is_ascii_chars(text));
        vstd::utf8::is_ascii_chars_encode_utf8(text);
        let bytes = vstd::utf8::encode_utf8(text);
        assert(bytes[0] == text[0] as u8);
        assert(bytes.drop_last() =~= Seq::<u8>::empty());
        assert(digits_value(bytes.drop_last()) == 0);
    } else {
        let front = decimal(n / 10);
        digits_denote(n / 10);
        assert(vstd::utf8::is_ascii_chars(text));
        vstd::utf8::is_ascii_chars_encode_utf8(text);
        vstd::utf8::is_ascii_chars_encode_utf8(front);
        let bytes = vstd::utf8::encode_utf8(text);
        let ahead = vstd::utf8::encode_utf8(front);
        assert(bytes.drop_last() =~= ahead) by {
            assert forall|i: int| 0 <= i < front.len() implies bytes[i] == ahead[i] by {
                assert(text[i] == front[i]);
            }
        }
        assert(text[front.len() as int] == last[0]);
        assert(bytes.last() == last[0] as u8);
        assert forall|i: int| 0 <= i < bytes.len() implies is_digit(#[trigger] bytes[i]) by {
            if i < front.len() {
                assert(bytes[i] == ahead[i]);
            }
        }
    }
}

/// A number survives being written in decimal and read back.
pub proof fn a_number_survives_its_rendering(n: u32)
    ensures
        parse_number(vstd::utf8::encode_utf8(decimal(n as nat))) == Some(n),
        vstd::utf8::valid_utf8(vstd::utf8::encode_utf8(decimal(n as nat))),
{
    digits_denote(n as nat);
    vstd::utf8::encode_utf8_valid_utf8(decimal(n as nat));
    let bytes = vstd::utf8::encode_utf8(decimal(n as nat));
    assert(is_digit(bytes[0]));
}

} // verus!
