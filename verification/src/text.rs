//! Numbers as text.

use vstd::prelude::*;

verus! {

/// The byte of a plus sign.
const PLUS: u8 = 43;

/// The byte of the digit zero.
const ZERO: u8 = 48;

/// The byte of the digit nine.
const NINE: u8 = 57;

/// The character for a digit below ten.
pub open spec fn digit_char(d: nat) -> char {
    (('0' as nat) + d) as char
}

/// `n` in decimal, without leading zeros.
pub open spec fn decimal_text(n: nat) -> Seq<char>
    decreases n,
{
    if n < 10 {
        seq![digit_char(n)]
    } else {
        decimal_text(n / 10).push(digit_char(n % 10))
    }
}

/// Whether every character is one of `0` to `9`.
pub open spec fn all_digits(s: Seq<char>) -> bool {
    forall|i: int| 0 <= i < s.len() ==> '0' <= #[trigger] s[i] <= '9'
}

/// The number that a string of digits writes in decimal.
pub open spec fn decimal_value(s: Seq<char>) -> nat
    decreases s.len(),
{
    if s.len() == 0 {
        0
    } else {
        (decimal_value(s.drop_last()) * 10 + (s.last() as nat - '0' as nat)) as nat
    }
}

/// What is left of a port's text behind its optional plus sign.
pub open spec fn port_digits(text: Seq<char>) -> Seq<char> {
    if text.len() > 0 && text[0] == '+' {
        text.skip(1)
    } else {
        text
    }
}

/// The port that a text names: an optional plus sign, then one or more digits, with a value that
/// fits in sixteen bits.
pub open spec fn port_of(text: Seq<char>) -> Option<u16> {
    let digits = port_digits(text);
    if digits.len() > 0 && all_digits(digits) && decimal_value(digits) <= u16::MAX {
        Some(decimal_value(digits) as u16)
    } else {
        None
    }
}

/// The text of a single digit.
fn digit(d: u64) -> (s: &'static str)
    requires
        d < 10,
    ensures
        s@ == seq![digit_char(d as nat)],
{
    proof {
        reveal_strlit("0");
        reveal_strlit("1");
        reveal_strlit("2");
        reveal_strlit("3");
        reveal_strlit("4");
        reveal_strlit("5");
        reveal_strlit("6");
        reveal_strlit("7");
        reveal_strlit("8");
        reveal_strlit("9");
    }
    match d {
        0 => "0",
        1 => "1",
        2 => "2",
        3 => "3",
        4 => "4",
        5 => "5",
        6 => "6",
        7 => "7",
        8 => "8",
        _ => "9",
    }
}

/// Writes a number in decimal.
pub fn decimal(n: u64) -> (s: String)
    ensures
        s@ == decimal_text(n as nat),
    decreases n,
{
    if n < 10 {
        digit(n).to_owned()
    } else {
        let mut s = decimal(n / 10);
        s.append(digit(n % 10));
        s
    }
}

/// A further digit never makes a number smaller.
proof fn lemma_value_grows(s: Seq<char>, k: int)
    requires
        0 <= k <= s.len(),
        all_digits(s),
    ensures
        decimal_value(s.take(k)) <= decimal_value(s),
    decreases s.len() - k,
{
    if k < s.len() {
        lemma_value_grows(s, k + 1);
        assert(s.take(k + 1).drop_last() =~= s.take(k));
        assert(s.take(k + 1).last() == s[k]);
    } else {
        assert(s.take(k) =~= s);
    }
}

/// Reads a port: an optional plus sign, then digits alone, up to 65535.
pub fn parse_port(text: &str) -> (port: Option<u16>)
    ensures
        port == port_of(text@),
{
    let ghost digits = port_digits(text@);
    if !text.is_ascii() {
        proof {
            let k = choose|k: int|
                0 <= k < text@.len() && !('\0' <= #[trigger] text@[k] <= '\u{7f}');
            if digits.len() < text@.len() {
                assert(digits[k - 1] == text@[k]);
            } else {
                assert(digits[k] == text@[k]);
            }
        }
        return None;
    }
    let bytes = text.as_bytes();
    let start: usize = if bytes.len() > 0 && bytes[0] == PLUS {
        1
    } else {
        0
    };
    if start == bytes.len() {
        return None;
    }
    let mut value: u32 = 0;
    let mut i: usize = start;
    while i < bytes.len()
        invariant
            start <= i <= bytes@.len(),
            start <= 1,
            bytes@.len() == text@.len(),
            forall|j: int|
                0 <= j < bytes@.len() ==> bytes@[j] == #[trigger] text@[j] as u8 && '\0' <= text@[j]
                    <= '\u{7f}',
            digits == port_digits(text@),
            digits == text@.skip(start as int),
            forall|j: int| 0 <= j < i - start ==> '0' <= #[trigger] digits[j] <= '9',
            value == decimal_value(digits.take(i - start)),
            value <= u16::MAX,
        decreases bytes.len() - i,
    {
        let b = bytes[i];
        assert(digits[i - start] == text@[i as int]);
        if b < ZERO || b > NINE {
            return None;
        }
        assert(digits.take(i - start + 1).drop_last() =~= digits.take(i - start));
        value = value * 10 + (b - ZERO) as u32;
        if value > 65535 {
            proof {
                if all_digits(digits) {
                    lemma_value_grows(digits, i - start + 1);
                }
            }
            return None;
        }
        i += 1;
    }
    assert(digits.take(bytes@.len() - start) =~= digits);
    Some(value as u16)
}

/// Reading back what was written gives the number again.
pub proof fn decimal_reads_back(n: nat)
    ensures
        decimal_text(n).len() > 0,
        all_digits(decimal_text(n)),
        decimal_value(decimal_text(n)) == n,
    decreases n,
{
    if n >= 10 {
        decimal_reads_back(n / 10);
        assert(decimal_text(n).drop_last() =~= decimal_text(n / 10));
        assert(digit_char(n % 10) as nat == 48 + n % 10);
    } else {
        assert(decimal_text(n).drop_last() =~= Seq::<char>::empty());
        assert(digit_char(n) as nat == 48 + n);
        assert(decimal_value(decimal_text(n).drop_last()) == 0);
    }
}

/// A number of sixty-four bits has at most twenty digits.
pub proof fn decimal_is_short(n: u64)
    ensures
        decimal_text(n as nat).len() <= 20,
{
    reveal_with_fuel(decimal_text, 20);
}

/// Every port, written in decimal, is read as itself.
pub proof fn port_round_trip(port: u16)
    ensures
        port_of(decimal_text(port as nat)) == Some(port),
{
    decimal_reads_back(port as nat);
}

/// Different numbers are written differently.
pub proof fn decimal_is_injective(m: nat, n: nat)
    requires
        decimal_text(m) == decimal_text(n),
    ensures
        m == n,
{
    decimal_reads_back(m);
    decimal_reads_back(n);
}

/// A number below ten is written as its digit, and a larger one as what it is without its last
/// digit, and then that digit.
pub proof fn numbers_are_written_digit_by_digit(
    n: u64,
    whole: String,
    head: String,
    last: String,
)
    requires
        call_ensures(decimal, (n,), whole),
        call_ensures(decimal, ((n / 10) as u64,), head),
        call_ensures(decimal, ((n % 10) as u64,), last),
    ensures
        last@.len() == 1 && last@[0] as int == '0' as int + n % 10,
        n < 10 ==> whole@ == last@,
        n >= 10 ==> whole@ == head@ + last@,
{
    assert(digit_char((n % 10) as nat) as nat == 48 + n % 10);
}

/// A number is written without leading zeros.
pub proof fn numbers_have_no_leading_zero(n: nat)
    ensures
        n > 0 ==> decimal_text(n)[0] != '0',
        n == 0 ==> decimal_text(n) == seq!['0'],
    decreases n,
{
    if n >= 10 {
        numbers_have_no_leading_zero(n / 10);
        decimal_reads_back(n / 10);
    } else {
        assert(digit_char(n) as nat == 48 + n);
    }
}

/// A port is read digit by digit. A text whose last character is no digit is none. A digit behind
/// nothing, or behind a plus sign alone, is a port. A digit behind a port makes it ten times larger
/// and adds to it, up to 65535. A digit behind anything else makes no port of it.
pub proof fn ports_are_read_digit_by_digit(
    head: &str,
    last: char,
    text: &str,
    before: Option<u16>,
    now: Option<u16>,
)
    requires
        text@ == head@.push(last),
        call_ensures(parse_port, (head,), before),
        call_ensures(parse_port, (text,), now),
    ensures
        !('0' <= last <= '9') ==> now is None,
        '0' <= last <= '9' && (head@.len() == 0 || head@ == seq!['+']) ==> (now matches Some(port)
            && port == last as int - '0' as int),
        '0' <= last <= '9' ==> (before matches Some(port) ==> {
            let larger = port * 10 + (last as int - '0' as int);
            now == if larger <= 65535 {
                Some(larger as u16)
            } else {
                None
            }
        }),
        head@.len() > 0 && head@ != seq!['+'] && before is None ==> now is None,
{
    let (h, t) = (port_digits(head@), port_digits(text@));
    if head@.len() > 0 {
        assert(text@[0] == head@[0]);
        assert(t =~= h.push(last));
        assert(t.last() == last);
        assert(t.drop_last() =~= h);
        if all_digits(t) {
            assert forall|i: int| 0 <= i < h.len() implies '0' <= #[trigger] h[i] <= '9' by {
                assert(t[i] == h[i]);
            }
        }
        if h.len() == 0 {
            assert(head@ =~= seq!['+']);
            assert(decimal_value(h) == 0);
        }
        if all_digits(h) && '0' <= last <= '9' {
            assert(decimal_value(t) == decimal_value(h) * 10 + (last as nat - '0' as nat));
        }
        if !('0' <= last <= '9') {
            assert(!('0' <= t[t.len() - 1] <= '9'));
        }
    } else {
        assert(head@ =~= Seq::<char>::empty());
        assert(text@ =~= seq![last]);
        if last == '+' {
            assert(t.len() == 0);
        } else {
            assert(t == text@);
            assert(t[0] == last);
            assert(t.drop_last() =~= Seq::<char>::empty());
            assert(decimal_value(t.drop_last()) == 0);
        }
    }
}

/// No text is no port.
pub proof fn no_port_without_text(text: &str, port: Option<u16>)
    requires
        call_ensures(parse_port, (text,), port),
        text@.len() == 0,
    ensures
        port is None,
{
}

/// A port is read as the number that is written: a written number up to 65535 is read as itself,
/// and a larger one not at all.
pub proof fn written_numbers_are_read(n: u64, text: &str, written: String, port: Option<u16>)
    requires
        call_ensures(decimal, (n,), written),
        text@ == written@,
        call_ensures(parse_port, (text,), port),
    ensures
        n <= 65535 ==> port == Some(n as u16),
        n > 65535 ==> port is None,
{
    decimal_reads_back(n as nat);
    let digits = decimal_text(n as nat);
    assert('0' <= digits[0] <= '9');
    assert(port_digits(digits) == digits);
}

} // verus!
