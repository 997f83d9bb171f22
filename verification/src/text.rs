//! Text built and read one character at a time: decimal numbers, ports, and
//! searching.

use vstd::prelude::*;
use vstd::string::*;

verus! {

/// The character that writes the digit `d`.
pub open spec fn digit_char(d: nat) -> char {
    (48 + d) as char
}

/// `n` in base ten, without leading zeros.
pub open spec fn decimal(n: nat) -> Seq<char>
    decreases n,
{
    if n < 10 {
        seq![digit_char(n)]
    } else {
        decimal(n / 10).push(digit_char(n % 10))
    }
}

/// `n` in base ten, behind a minus sign where it is negative.
pub open spec fn signed_decimal(n: int) -> Seq<char> {
    if n < 0 {
        seq!['-'] + decimal((-n) as nat)
    } else {
        decimal(n as nat)
    }
}

/// `s` with zeros in front of it, up to a length of three.
pub open spec fn padded_to_three(s: Seq<char>) -> Seq<char> {
    if s.len() == 0 {
        seq!['0', '0', '0']
    } else if s.len() == 1 {
        seq!['0', '0'] + s
    } else if s.len() == 2 {
        seq!['0'] + s
    } else {
        s
    }
}

pub open spec fn is_digit(c: char) -> bool {
    '0' <= c <= '9'
}

pub open spec fn all_digits(s: Seq<char>) -> bool {
    forall|i: int| 0 <= i < s.len() ==> is_digit(#[trigger] s[i])
}

/// The number that a sequence of digits writes in base ten.
pub open spec fn digits_value(s: Seq<char>) -> nat
    decreases s.len(),
{
    if s.len() == 0 {
        0
    } else {
        digits_value(s.drop_last()) * 10 + (s.last() as nat - 48) as nat
    }
}

/// What stands behind an optional plus sign.
pub open spec fn after_plus(s: Seq<char>) -> Seq<char> {
    if s.len() > 0 && s[0] == '+' {
        s.skip(1)
    } else {
        s
    }
}

/// The port that `s` writes: an optional plus sign, then one digit or more,
/// with a value that a port can have. Any other text writes no port.
pub open spec fn parsed_port(s: Seq<char>) -> Option<u16> {
    let digits = after_plus(s);
    if digits.len() > 0 && all_digits(digits) && digits_value(digits) <= 65535 {
        Some(digits_value(digits) as u16)
    } else {
        None
    }
}

/// `part` stands somewhere in `text`, in one piece.
pub open spec fn occurs<A>(text: Seq<A>, part: Seq<A>) -> bool {
    exists|i: int|
        0 <= i <= text.len() - part.len() && #[trigger] text.subrange(i, i + part.len()) == part
}

/// A number read digit by digit only grows.
proof fn lemma_digits_value_grows(s: Seq<char>, k: int)
    requires
        all_digits(s),
        0 <= k <= s.len(),
    ensures
        digits_value(s) >= digits_value(s.take(k)),
    decreases s.len(),
{
    if k == s.len() {
        assert(s.take(k) =~= s);
    } else {
        assert(is_digit(s[s.len() - 1]));
        lemma_digits_value_grows(s.drop_last(), k);
        assert(s.drop_last().take(k) =~= s.take(k));
    }
}

/// The decimal text of a number is made of digits and reads back as that number.
pub proof fn decimal_reads_back(n: nat)
    ensures
        decimal(n).len() > 0,
        all_digits(decimal(n)),
        digits_value(decimal(n)) == n,
    decreases n,
{
    reveal_with_fuel(digits_value, 2);
    if n < 10 {
        assert(decimal(n).drop_last() =~= Seq::<char>::empty());
        assert(decimal(n).last() == digit_char(n));
    } else {
        decimal_reads_back(n / 10);
        assert(decimal(n).drop_last() =~= decimal(n / 10));
        assert(decimal(n).last() == digit_char(n % 10));
    }
}

/// A port written in decimal reads back as the same port.
pub proof fn port_reads_back(port: u16)
    ensures
        parsed_port(decimal(port as nat)) == Some(port),
{
    decimal_reads_back(port as nat);
    let s = decimal(port as nat);
    assert(is_digit(s[0]));
    assert(after_plus(s) == s);
}

/// The characters of a string.
pub fn to_chars(s: &str) -> (chars: Vec<char>)
    ensures
        chars@ == s@,
{
    let mut chars: Vec<char> = Vec::new();
    for c in it: s.chars()
        invariant
            it.seq() == s@,
            chars@ == s@.take(it.index() as int),
    {
        chars.push(c);
        assert(s@.take(it.index() + 1) =~= s@.take(it.index() as int).push(c));
    }
    assert(s@.take(s@.len() as int) =~= s@);
    chars
}

/// Whether two strings hold the same characters.
pub fn same_text(a: &str, b: &str) -> (same: bool)
    ensures
        same == (a@ == b@),
{
    let left = to_chars(a);
    let right = to_chars(b);
    if left.len() != right.len() {
        return false;
    }
    let mut i: usize = 0;
    while i < left.len()
        invariant
            i <= left.len(),
            left.len() == right.len(),
            left@ == a@,
            right@ == b@,
            forall|j: int| 0 <= j < i ==> left@[j] == right@[j],
        decreases left.len() - i,
    {
        if left[i] != right[i] {
            return false;
        }
        i += 1;
    }
    assert(a@ =~= b@);
    true
}

/// Whether `part` stands in `text` at position `at`.
fn stands_at(text: &Vec<char>, part: &Vec<char>, at: usize) -> (found: bool)
    requires
        at + part@.len() <= text@.len(),
    ensures
        found == (text@.subrange(at as int, at + part@.len()) == part@),
{
    let total: usize = text.len();
    let mut j: usize = 0;
    while j < part.len()
        invariant
            j <= part@.len(),
            at + part@.len() <= text@.len(),
            total == text@.len(),
            forall|k: int| 0 <= k < j ==> text@[at + k] == part@[k],
        decreases part@.len() - j,
    {
        if text[at + j] != part[j] {
            assert(text@.subrange(at as int, at + part@.len())[j as int] != part@[j as int]);
            return false;
        }
        j += 1;
    }
    assert(text@.subrange(at as int, at + part@.len()) =~= part@);
    true
}

/// Whether `part` stands somewhere in `text`.
pub fn contains_text(text: &str, part: &str) -> (found: bool)
    ensures
        found == occurs(text@, part@),
{
    let text_chars = to_chars(text);
    let part_chars = to_chars(part);
    if part_chars.len() > text_chars.len() {
        return false;
    }
    let last: usize = text_chars.len() - part_chars.len();
    let mut at: usize = 0;
    while at < last
        invariant
            at <= last,
            last == text_chars@.len() - part_chars@.len(),
            text_chars@ == text@,
            part_chars@ == part@,
            forall|i: int|
                0 <= i < at ==> #[trigger] text@.subrange(i, i + part@.len()) != part@,
        decreases last - at,
    {
        if stands_at(&text_chars, &part_chars, at) {
            return true;
        }
        at += 1;
    }
    stands_at(&text_chars, &part_chars, last)
}

/// Writes one digit at the end of `out`.
fn push_digit(out: &mut String, d: u64)
    requires
        d < 10,
    ensures
        final(out)@ == old(out)@.push(digit_char(d as nat)),
{
    let digits = "0123456789";
    proof {
        reveal_strlit("0123456789");
    }
    let at: usize = d as usize;
    let digit = digits.substring_ascii(at, at + 1);
    out.append(digit);
    assert(digit@ =~= seq![digit_char(d as nat)]);
    assert(out@ =~= old(out)@.push(digit_char(d as nat)));
}

/// Writes `n` in decimal at the end of `out`.
pub fn push_decimal(out: &mut String, n: u64)
    ensures
        final(out)@ == old(out)@ + decimal(n as nat),
    decreases n,
{
    if n < 10 {
        push_digit(out, n);
        assert(out@ =~= old(out)@ + decimal(n as nat));
    } else {
        push_decimal(out, n / 10);
        push_digit(out, n % 10);
        assert(out@ =~= old(out)@ + decimal(n as nat));
    }
}

/// `n` in decimal.
pub fn decimal_text(n: u64) -> (s: String)
    ensures
        s@ == decimal(n as nat),
{
    let mut s = String::new();
    push_decimal(&mut s, n);
    assert(s@ =~= decimal(n as nat));
    s
}

/// `n` in decimal, behind a minus sign where it is negative.
pub fn signed_decimal_text(n: i32) -> (s: String)
    ensures
        s@ == signed_decimal(n as int),
{
    let mut s = String::new();
    if n < 0 {
        proof {
            reveal_strlit("-");
        }
        s.append("-");
        push_decimal(&mut s, (-(n as i64)) as u64);
    } else {
        push_decimal(&mut s, n as u64);
    }
    assert(s@ =~= signed_decimal(n as int));
    s
}

/// `n` in decimal, with leading zeros up to three digits.
pub fn three_digits_text(n: u32) -> (s: String)
    ensures
        s@ == padded_to_three(decimal(n as nat)),
{
    let mut s = String::new();
    proof {
        decimal_reads_back(n as nat);
        reveal_strlit("0");
        reveal_strlit("00");
        reveal_with_fuel(decimal, 4);
    }
    if n < 10 {
        s.append("00");
    } else if n < 100 {
        s.append("0");
    }
    push_decimal(&mut s, n as u64);
    assert(s@ =~= padded_to_three(decimal(n as nat)));
    s
}

/// Reads a port: an optional plus sign and digits, at most 65535.
pub fn parse_port(s: &str) -> (port: Option<u16>)
    ensures
        port == parsed_port(s@),
{
    let chars = to_chars(s);
    let start: usize = if chars.len() > 0 && chars[0] == '+' {
        1
    } else {
        0
    };
    let ghost digits = after_plus(s@);
    assert(digits =~= s@.skip(start as int));
    if start == chars.len() {
        return None;
    }
    let mut value: u32 = 0;
    let mut i: usize = start;
    while i < chars.len()
        invariant
            chars@ == s@,
            digits == after_plus(s@),
            digits == s@.skip(start as int),
            start <= i <= chars.len(),
            value <= 65535,
            value == digits_value(digits.take(i - start)),
            forall|j: int| 0 <= j < i - start ==> is_digit(#[trigger] digits[j]),
        decreases chars.len() - i,
    {
        let c: char = chars[i];
        assert(digits[i - start] == c);
        if c < '0' || '9' < c {
            return None;
        }
        value = value * 10 + (c as u32 - 48);
        proof {
            let k = i - start;
            assert(digits.take(k + 1).drop_last() =~= digits.take(k));
            assert(digits.take(k + 1).last() == c);
            if value > 65535 && all_digits(digits) {
                lemma_digits_value_grows(digits, k + 1);
            }
        }
        if value > 65535 {
            return None;
        }
        i += 1;
    }
    assert(digits.take(i - start) =~= digits);
    Some(value as u16)
}

/// Decimal text is positional: a number below ten is its one digit, and any other number
/// is the text of its tens followed by the digit of its units.
pub proof fn decimal_is_positional(n: nat)
    ensures
        n < 10 ==> decimal(n) == seq![(48 + n) as char],
        n >= 10 ==> decimal(n) == decimal(n / 10).push((48 + n % 10) as char),
{
}

/// Reading digits is positional: no digits are worth nothing, and one digit more makes ten
/// times what stood before it, and its own value.
pub proof fn digits_are_positional(s: Seq<char>, c: char)
    requires
        '0' <= c <= '9',
    ensures
        digits_value(Seq::empty()) == 0,
        digits_value(s.push(c)) == 10 * digits_value(s) + (c as int - 48),
{
    assert(s.push(c).drop_last() =~= s);
    assert(s.push(c).last() == c);
}

/// A number below a thousand is padded to its hundreds, tens and units; a larger one is
/// written as it is.
pub proof fn padding_shows_hundreds(n: nat)
    ensures
        n < 1000 ==> padded_to_three(decimal(n)) == seq![
            (48 + n / 100) as char,
            (48 + n / 10 % 10) as char,
            (48 + n % 10) as char,
        ],
        n >= 1000 ==> padded_to_three(decimal(n)) == decimal(n),
{
    reveal_with_fuel(decimal, 4);
    if n < 10 {
        assert(n / 100 == 0 && n / 10 % 10 == 0);
        assert(padded_to_three(decimal(n)) =~= seq!['0', '0', (48 + n) as char]);
        assert((48 + n / 100) as char == '0' && (48 + n / 10 % 10) as char == '0');
    } else if n < 100 {
        assert(n / 100 == 0 && n / 10 % 10 == n / 10);
        assert(padded_to_three(decimal(n)) =~= seq![
            '0',
            (48 + n / 10) as char,
            (48 + n % 10) as char,
        ]);
        assert((48 + n / 100) as char == '0');
    } else if n < 1000 {
        assert(n / 10 / 10 == n / 100);
        assert(padded_to_three(decimal(n)) =~= seq![
            (48 + n / 100) as char,
            (48 + n / 10 % 10) as char,
            (48 + n % 10) as char,
        ]);
    } else {
        assert(n / 10 >= 100 && n / 10 / 10 >= 10);
        assert(decimal(n / 10).len() >= 3);
    }
}

/// A sign stands in front of negative numbers only, and the number behind it is that
/// without a sign.
pub proof fn sign_stands_in_front(n: int)
    ensures
        n >= 0 ==> signed_decimal(n) == decimal(n as nat),
        n < 0 ==> signed_decimal(n) == seq!['-'] + decimal((-n) as nat),
{
}

/// A text writes a port exactly where it is one digit or more, with or without one plus
/// sign in front, and worth at most 65535: then it writes what the digits are worth.
pub proof fn ports_are_digits(s: Seq<char>)
    ensures
        ({
            let plain = s.len() > 0 && forall|i: int|
                0 <= i < s.len() ==> '0' <= #[trigger] s[i] <= '9';
            let signed = s.len() > 1 && s[0] == '+' && forall|i: int|
                1 <= i < s.len() ==> '0' <= #[trigger] s[i] <= '9';
            &&& plain && digits_value(s) <= 65535 ==> parsed_port(s) == Some(
                digits_value(s) as u16,
            )
            &&& signed && digits_value(s.skip(1)) <= 65535 ==> parsed_port(s) == Some(
                digits_value(s.skip(1)) as u16,
            )
            &&& plain && digits_value(s) > 65535 ==> parsed_port(s) is None
            &&& signed && digits_value(s.skip(1)) > 65535 ==> parsed_port(s) is None
            &&& !plain && !signed ==> parsed_port(s) is None
        }),
{
    let digits = after_plus(s);
    if s.len() > 0 && s[0] == '+' {
        assert(digits == s.skip(1));
        assert(forall|i: int| 0 <= i < digits.len() ==> #[trigger] digits[i] == s[i + 1]);
        assert(forall|i: int| 1 <= i < s.len() ==> #[trigger] s[i] == digits[i - 1]);
        if all_digits(digits) {
            assert forall|i: int| 1 <= i < s.len() implies '0' <= #[trigger] s[i] <= '9' by {
                assert(is_digit(digits[i - 1]));
            }
        }
    } else {
        assert(digits == s);
        if all_digits(s) {
            assert forall|i: int| 0 <= i < s.len() implies '0' <= #[trigger] s[i] <= '9' by {
                assert(is_digit(s[i]));
            }
        }
    }
}

/// A part occurs in a text exactly where the text is something, the part, and something.
pub proof fn occurring_is_standing_between<A>(text: Seq<A>, part: Seq<A>)
    ensures
        occurs(text, part) <==> exists|a: Seq<A>, b: Seq<A>| text == #[trigger] (a + part + b),
{
    if occurs(text, part) {
        let i = choose|i: int|
            0 <= i <= text.len() - part.len() && #[trigger] text.subrange(i, i + part.len())
                == part;
        let a = text.take(i);
        let b = text.skip(i + part.len());
        assert forall|j: int| 0 <= j < text.len() implies text[j] == (a + part + b)[j] by {
            if i <= j < i + part.len() {
                assert(part[j - i] == text.subrange(i, i + part.len())[j - i]);
            }
        }
        assert(text =~= a + part + b);
    }
    if exists|a: Seq<A>, b: Seq<A>| text == #[trigger] (a + part + b) {
        let (a, b) = choose|a: Seq<A>, b: Seq<A>| text == #[trigger] (a + part + b);
        let at: int = a.len() as int;
        assert(text.subrange(at, at + part.len()) =~= part);
    }
}

} // verus!
