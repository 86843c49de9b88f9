use vstd::prelude::*;
use vstd::string::{StrSliceExecFns, StringExecFns};
use vstd::utf8::{encode_utf8, encode_utf8_decode_utf8};

verus! {

/// Whether two strings hold the same characters.
pub fn str_eq(a: &str, b: &str) -> (r: bool)
    ensures
        r == (a@ == b@),
{
    let x = a.as_bytes();
    let y = b.as_bytes();
    proof {
        encode_utf8_decode_utf8(a@);
        encode_utf8_decode_utf8(b@);
    }
    if x.len() != y.len() {
        return false;
    }
    let mut i: usize = 0;
    while i < x.len()
        invariant
            i <= x@.len(),
            x@.len() == y@.len(),
            forall|k: int| 0 <= k < i ==> x@[k] == y@[k],
            x@ == encode_utf8(a@),
            y@ == encode_utf8(b@),
        decreases x@.len() - i,
    {
        if x[i] != y[i] {
            return false;
        }
        i = i + 1;
    }
    assert(x@ =~= y@);
    true
}

/// The value of a character as a digit: `0` to `9` are zero to nine, and the
/// letters of either case count on from ten.
pub open spec fn digit_value(c: char) -> Option<nat> {
    if '0' <= c <= '9' {
        Some((c as nat - '0' as nat) as nat)
    } else if 'a' <= c <= 'z' {
        Some((c as nat - 'a' as nat + 10) as nat)
    } else if 'A' <= c <= 'Z' {
        Some((c as nat - 'A' as nat + 10) as nat)
    } else {
        None
    }
}

/// The number that the first `n` characters denote in a radix, where each of
/// them is a digit of the radix.
pub open spec fn digits_value(s: Seq<char>, n: nat, radix: nat) -> Option<nat>
    decreases n,
{
    if n == 0 {
        Some(0)
    } else {
        match (digits_value(s, (n - 1) as nat, radix), digit_value(s[n - 1])) {
            (Some(v), Some(d)) => if d < radix {
                Some(v * radix + d)
            } else {
                None
            },
            _ => None,
        }
    }
}

/// A string without the `+` that may stand before its digits.
pub open spec fn unsigned_part(s: Seq<char>) -> Seq<char> {
    if s.len() > 0 && s[0] == '+' {
        s.skip(1)
    } else {
        s
    }
}

/// The byte that a string denotes in a radix: one or more digits of the
/// radix, which may follow a `+`, whose number is at most 255. This is how
/// `u8::from_str_radix` reads a string.
pub open spec fn radix_value(s: Seq<char>, radix: u32) -> Option<u8> {
    let digits = unsigned_part(s);
    if digits.len() == 0 {
        None
    } else {
        match digits_value(digits, digits.len(), radix as nat) {
            Some(v) => if v <= 255 {
                Some(v as u8)
            } else {
                None
            },
            None => None,
        }
    }
}

proof fn lemma_digits_grow(s: Seq<char>, k: nat, n: nat, radix: nat)
    requires
        radix >= 1,
        k <= n,
    ensures
        digits_value(s, k, radix) is None ==> digits_value(s, n, radix) is None,
        digits_value(s, n, radix) matches Some(w) ==> digits_value(s, k, radix)->0 <= w,
    decreases n - k,
{
    if k < n {
        lemma_digits_grow(s, k, (n - 1) as nat, radix);
        match (digits_value(s, (n - 1) as nat, radix), digit_value(s[n - 1])) {
            (Some(v), Some(d)) => {
                assert(v * radix + d >= v) by (nonlinear_arith)
                    requires
                        radix >= 1,
                        v >= 0,
                        d >= 0,
                ;
            },
            _ => {},
        }
    }
}

fn digit_of(c: char) -> (r: Option<u32>)
    ensures
        match r {
            Some(d) => digit_value(c) == Some(d as nat) && d < 36,
            None => digit_value(c) is None,
        },
{
    if '0' <= c && c <= '9' {
        Some(c as u32 - '0' as u32)
    } else if 'a' <= c && c <= 'z' {
        Some(c as u32 - 'a' as u32 + 10)
    } else if 'A' <= c && c <= 'Z' {
        Some(c as u32 - 'A' as u32 + 10)
    } else {
        None
    }
}

/// Reads a byte from its digits in a radix from 2 to 36.
pub fn parse_radix(s: &str, radix: u32) -> (r: Option<u8>)
    requires
        2 <= radix <= 36,
    ensures
        r == radix_value(s@, radix),
{
    let n = s.unicode_len();
    let mut start: usize = 0;
    if n > 0 {
        if s.get_char(0) == '+' {
            start = 1;
        }
    }
    let ghost digits = unsigned_part(s@);
    assert(digits =~= s@.skip(start as int));
    if start == n {
        return None;
    }
    let mut value: u32 = 0;
    let mut i: usize = start;
    while i < n
        invariant
            start <= i <= n,
            n == s@.len(),
            2 <= radix <= 36,
            digits == s@.skip(start as int),
            digits == unsigned_part(s@),
            value <= 255,
            digits_value(digits, (i - start) as nat, radix as nat) == Some(value as nat),
        decreases n - i,
    {
        let c = s.get_char(i);
        assert(digits[i - start] == c);
        let ghost seen = (i - start + 1) as nat;
        match digit_of(c) {
            Some(d) => {
                if d >= radix {
                    proof {
                        lemma_digits_grow(digits, seen, digits.len(), radix as nat);
                    }
                    return None;
                }
                assert(value * radix + d <= 255 * 36 + 35) by (nonlinear_arith)
                    requires
                        value <= 255,
                        radix <= 36,
                        d <= 35,
                ;
                let next: u32 = value * radix + d;
                if next > 255 {
                    proof {
                        lemma_digits_grow(digits, seen, digits.len(), radix as nat);
                    }
                    return None;
                }
                value = next;
            },
            None => {
                proof {
                    lemma_digits_grow(digits, seen, digits.len(), radix as nat);
                }
                return None;
            },
        }
        i = i + 1;
    }
    Some(value as u8)
}

/// The character that stands for a digit below sixteen, in upper case.
pub open spec fn digit_char(d: nat) -> char {
    if d == 0 {
        '0'
    } else if d == 1 {
        '1'
    } else if d == 2 {
        '2'
    } else if d == 3 {
        '3'
    } else if d == 4 {
        '4'
    } else if d == 5 {
        '5'
    } else if d == 6 {
        '6'
    } else if d == 7 {
        '7'
    } else if d == 8 {
        '8'
    } else if d == 9 {
        '9'
    } else if d == 10 {
        'A'
    } else if d == 11 {
        'B'
    } else if d == 12 {
        'C'
    } else if d == 13 {
        'D'
    } else if d == 14 {
        'E'
    } else {
        'F'
    }
}

/// A number in decimal, without leading zeros.
pub open spec fn decimal_text(n: nat) -> Seq<char>
    decreases n,
{
    if n < 10 {
        seq![digit_char(n)]
    } else {
        decimal_text(n / 10).push(digit_char(n % 10))
    }
}

/// A byte in hexadecimal, in upper case and without leading zeros.
pub open spec fn hex_text(b: u8) -> Seq<char> {
    if b < 16 {
        seq![digit_char(b as nat)]
    } else {
        seq![digit_char((b / 16) as nat), digit_char((b % 16) as nat)]
    }
}

fn digit(d: u8) -> (r: &'static str)
    requires
        d < 16,
    ensures
        r@ == seq![digit_char(d as nat)],
{
    proof {
        reveal_strlit("0");
        reveal_strlit("1");
        reveal_strlit("2");
        reveal_strlit("3");
        reveal_strlit("4");
        reveal_strlit("5");
        reveal_strlit("6");
        reveal_strlit("7");
        reveal_strlit("8");
        reveal_strlit("9");
        reveal_strlit("A");
        reveal_strlit("B");
        reveal_strlit("C");
        reveal_strlit("D");
        reveal_strlit("E");
        reveal_strlit("F");
    }
    let r = match d {
        0 => "0",
        1 => "1",
        2 => "2",
        3 => "3",
        4 => "4",
        5 => "5",
        6 => "6",
        7 => "7",
        8 => "8",
        9 => "9",
        10 => "A",
        11 => "B",
        12 => "C",
        13 => "D",
        14 => "E",
        _ => "F",
    };
    assert(r@ =~= seq![digit_char(d as nat)]);
    r
}

/// Writes a number in decimal.
pub fn decimal(n: usize) -> (r: String)
    ensures
        r@ == decimal_text(n as nat),
    decreases n,
{
    if n < 10 {
        digit(n as u8).to_owned()
    } else {
        let mut text = decimal(n / 10);
        text.append(digit((n % 10) as u8));
        assert(text@ =~= decimal_text(n as nat));
        text
    }
}

/// Writes a byte in hexadecimal, in upper case.
pub fn hex(b: u8) -> (r: String)
    ensures
        r@ == hex_text(b),
{
    if b < 16 {
        digit(b).to_owned()
    } else {
        let mut text = digit(b / 16).to_owned();
        text.append(digit(b % 16));
        assert(text@ =~= hex_text(b));
        text
    }
}

} // verus!
