//! Number formatting for assembly text.
//!
//! Every number that ends up in the generated source is written by the
//! functions of this module, each of which is specified by a spec function
//! over `Seq<char>`.

use vstd::prelude::*;
use vstd::string::StringExecFns;

verus! {

/// The character of one decimal digit.
pub open spec fn digit_char(d: nat) -> char {
    if d == 0 {
        '0'
    } else if d == 1 {
        '1'
    } else if d == 2 {
        '2'
    } else if d == 3 {
        '3'
    } else if d == 4 {
        '4'
    } else if d == 5 {
        '5'
    } else if d == 6 {
        '6'
    } else if d == 7 {
        '7'
    } else if d == 8 {
        '8'
    } else {
        '9'
    }
}

/// The decimal numeral of `n`, without leading zeros.
pub open spec fn decimal(n: nat) -> Seq<char>
    decreases n,
{
    if n < 10 {
        seq![digit_char(n)]
    } else {
        decimal(n / 10).push(digit_char(n % 10))
    }
}

/// The decimal numeral of a signed number: a minus sign before the numeral
/// of its magnitude when it is negative.
pub open spec fn signed_decimal(n: int) -> Seq<char> {
    if n < 0 {
        seq!['-'] + decimal((-n) as nat)
    } else {
        decimal(n as nat)
    }
}

/// The character of one hexadecimal digit, letters in upper case.
pub open spec fn hex_upper_char(d: nat) -> char {
    if d < 10 {
        digit_char(d)
    } else if d == 10 {
        'A'
    } else if d == 11 {
        'B'
    } else if d == 12 {
        'C'
    } else if d == 13 {
        'D'
    } else if d == 14 {
        'E'
    } else {
        'F'
    }
}

/// The character of one hexadecimal digit, letters in lower case.
pub open spec fn hex_lower_char(d: nat) -> char {
    if d < 10 {
        digit_char(d)
    } else if d == 10 {
        'a'
    } else if d == 11 {
        'b'
    } else if d == 12 {
        'c'
    } else if d == 13 {
        'd'
    } else if d == 14 {
        'e'
    } else {
        'f'
    }
}

/// Two upper-case hexadecimal digits of a byte.
pub open spec fn hex2_upper(n: nat) -> Seq<char> {
    seq![hex_upper_char(n / 16 % 16), hex_upper_char(n % 16)]
}

/// Four upper-case hexadecimal digits of a 16-bit word.
pub open spec fn hex4_upper(n: nat) -> Seq<char> {
    seq![
        hex_upper_char(n / 4096 % 16),
        hex_upper_char(n / 256 % 16),
        hex_upper_char(n / 16 % 16),
        hex_upper_char(n % 16),
    ]
}

/// Four lower-case hexadecimal digits of a 16-bit word.
pub open spec fn hex4_lower(n: nat) -> Seq<char> {
    seq![
        hex_lower_char(n / 4096 % 16),
        hex_lower_char(n / 256 % 16),
        hex_lower_char(n / 16 % 16),
        hex_lower_char(n % 16),
    ]
}

/// An address as the assembler reads it: `$` and four upper-case digits.
pub open spec fn dollar_hex4(n: nat) -> Seq<char> {
    seq!['$'] + hex4_upper(n)
}

/// A byte as the assembler reads it: `$` and two upper-case digits.
pub open spec fn dollar_hex2(n: nat) -> Seq<char> {
    seq!['$'] + hex2_upper(n)
}

/// A decimal numeral is never empty.
pub proof fn lemma_decimal_len(n: nat)
    ensures
        decimal(n).len() >= 1,
{
}

/// Different digits have different characters.
pub proof fn lemma_digit_char_injective(a: nat, b: nat)
    requires
        a < 10,
        b < 10,
        digit_char(a) == digit_char(b),
    ensures
        a == b,
{
}

/// Different numbers have different decimal numerals.
pub proof fn lemma_decimal_injective(a: nat, b: nat)
    requires
        decimal(a) == decimal(b),
    ensures
        a == b,
    decreases a,
{
    lemma_decimal_len(a / 10);
    lemma_decimal_len(b / 10);
    if a < 10 {
        if b >= 10 {
        } else {
            assert(decimal(b)[0] == digit_char(b));
        }
    } else {
        if b < 10 {
        } else {
            let pa = decimal(a / 10);
            let pb = decimal(b / 10);
            assert(decimal(b).last() == digit_char(b % 10));
            lemma_digit_char_injective(a % 10, b % 10);
            assert(pa =~= decimal(a).drop_last());
            assert(pb =~= decimal(b).drop_last());
            lemma_decimal_injective(a / 10, b / 10);
        }
    }
}

/// One decimal digit as text.
pub fn digit_str(d: u8) -> (r: &'static str)
    requires
        d < 10,
    ensures
        r@ == seq![digit_char(d as nat)],
{
    proof {
        reveal_strlit("0");
        reveal_strlit("1");
        reveal_strlit("2");
        reveal_strlit("3");
        reveal_strlit("4");
        reveal_strlit("5");
        reveal_strlit("6");
        reveal_strlit("7");
        reveal_strlit("8");
        reveal_strlit("9");
    }
    let r = if d == 0 {
        "0"
    } else if d == 1 {
        "1"
    } else if d == 2 {
        "2"
    } else if d == 3 {
        "3"
    } else if d == 4 {
        "4"
    } else if d == 5 {
        "5"
    } else if d == 6 {
        "6"
    } else if d == 7 {
        "7"
    } else if d == 8 {
        "8"
    } else {
        "9"
    };
    r
}

/// One hexadecimal digit as text, letters in upper case.
pub fn hex_upper_str(d: u8) -> (r: &'static str)
    requires
        d < 16,
    ensures
        r@ == seq![hex_upper_char(d as nat)],
{
    proof {
        reveal_strlit("A");
        reveal_strlit("B");
        reveal_strlit("C");
        reveal_strlit("D");
        reveal_strlit("E");
        reveal_strlit("F");
    }
    if d < 10 {
        digit_str(d)
    } else {
        let r = if d == 10 {
            "A"
        } else if d == 11 {
            "B"
        } else if d == 12 {
            "C"
        } else if d == 13 {
            "D"
        } else if d == 14 {
            "E"
        } else {
            "F"
        };
        r
    }
}

/// One hexadecimal digit as text, letters in lower case.
pub fn hex_lower_str(d: u8) -> (r: &'static str)
    requires
        d < 16,
    ensures
        r@ == seq![hex_lower_char(d as nat)],
{
    proof {
        reveal_strlit("a");
        reveal_strlit("b");
        reveal_strlit("c");
        reveal_strlit("d");
        reveal_strlit("e");
        reveal_strlit("f");
    }
    if d < 10 {
        digit_str(d)
    } else {
        let r = if d == 10 {
            "a"
        } else if d == 11 {
            "b"
        } else if d == 12 {
            "c"
        } else if d == 13 {
            "d"
        } else if d == 14 {
            "e"
        } else {
            "f"
        };
        r
    }
}

/// Appends the decimal numeral of `n` to `s`.
pub fn push_decimal(s: &mut String, n: u64)
    ensures
        final(s)@ == old(s)@ + decimal(n as nat),
    decreases n,
{
    if n >= 10 {
        push_decimal(s, n / 10);
    }
    let d: u8 = (n % 10) as u8;
    s.append(digit_str(d));
}

/// The decimal numeral of `n`.
pub fn decimal_string(n: u64) -> (r: String)
    ensures
        r@ == decimal(n as nat),
{
    let mut r = String::new();
    push_decimal(&mut r, n);
    r
}

/// The decimal numeral of a signed number.
pub fn signed_decimal_string(n: i32) -> (r: String)
    ensures
        r@ == signed_decimal(n as int),
{
    if n < 0 {
        let magnitude: u64 = (-(n as i64)) as u64;
        let mut r = String::from_str("-");
        proof {
            reveal_strlit("-");
        }
        push_decimal(&mut r, magnitude);
        r
    } else {
        decimal_string(n as u64)
    }
}

/// Two upper-case hexadecimal digits of a byte.
pub fn hex2_upper_string(n: u8) -> (r: String)
    ensures
        r@ == hex2_upper(n as nat),
{
    let mut r = String::from_str(hex_upper_str(n / 16));
    r.append(hex_upper_str(n % 16));
    r
}

/// Four upper-case hexadecimal digits of a word.
pub fn hex4_upper_string(n: u16) -> (r: String)
    ensures
        r@ == hex4_upper(n as nat),
{
    let mut r = String::from_str(hex_upper_str((n / 4096) as u8));
    r.append(hex_upper_str((n / 256 % 16) as u8));
    r.append(hex_upper_str((n / 16 % 16) as u8));
    r.append(hex_upper_str((n % 16) as u8));
    r
}

/// Four lower-case hexadecimal digits of a word.
pub fn hex4_lower_string(n: u16) -> (r: String)
    ensures
        r@ == hex4_lower(n as nat),
{
    let mut r = String::from_str(hex_lower_str((n / 4096) as u8));
    r.append(hex_lower_str((n / 256 % 16) as u8));
    r.append(hex_lower_str((n / 16 % 16) as u8));
    r.append(hex_lower_str((n % 16) as u8));
    r
}

/// `$` and four upper-case digits.
pub fn dollar_hex4_string(n: u16) -> (r: String)
    ensures
        r@ == dollar_hex4(n as nat),
{
    let mut r = String::from_str("$");
    proof {
        reveal_strlit("$");
    }
    let digits = hex4_upper_string(n);
    r.append(digits.as_str());
    r
}

/// `$` and two upper-case digits.
pub fn dollar_hex2_string(n: u8) -> (r: String)
    ensures
        r@ == dollar_hex2(n as nat),
{
    let mut r = String::from_str("$");
    proof {
        reveal_strlit("$");
    }
    let digits = hex2_upper_string(n);
    r.append(digits.as_str());
    r
}

/// The two texts one after the other.
pub fn join2(a: &str, b: &str) -> (r: String)
    ensures
        r@ == a@ + b@,
{
    let mut r = String::from_str(a);
    r.append(b);
    r
}

/// The three texts one after the other.
pub fn join3(a: &str, b: &str, c: &str) -> (r: String)
    ensures
        r@ == a@ + b@ + c@,
{
    let mut r = String::from_str(a);
    r.append(b);
    r.append(c);
    r
}

/// The index of the first occurrence of `name`; the length where there is
/// none.
pub open spec fn index_of_text(names: Seq<Seq<char>>, name: Seq<char>) -> int
    decreases names.len(),
{
    if names.len() == 0 {
        0
    } else if names.first() == name {
        0
    } else {
        1 + index_of_text(names.drop_first(), name)
    }
}

/// Where `name` stands at `i` and not before, `i` is its first occurrence;
/// where it stands nowhere, the index is the length.
pub proof fn lemma_index_of_text(names: Seq<Seq<char>>, name: Seq<char>, i: int)
    requires
        0 <= i <= names.len(),
        forall|j: int| 0 <= j < i ==> #[trigger] names[j] != name,
        i < names.len() ==> names[i] == name,
    ensures
        index_of_text(names, name) == i,
        i < names.len() <==> names.contains(name),
    decreases names.len(),
{
    if names.len() > 0 && i > 0 {
        let rest = names.drop_first();
        lemma_index_of_text(rest, name, i - 1);
    }
}

/// Whether two texts hold the same characters.
pub fn same_text(a: &str, b: &str) -> (r: bool)
    ensures
        r == (a@ == b@),
{
    let x = String::from_str(a);
    let y = String::from_str(b);
    x == y
}

} // verus!
