//! Exact textual rendering helpers: decimal numbers and lowercase hex.
//!
//! Policy documents and audit records must render byte-for-byte
//! reproducibly, so every builder here carries an exact character-sequence
//! contract.

use vstd::prelude::*;
use vstd::string::{StrSliceExecFns, StringExecFns};

verus! {

/// The character for one digit value, decimal or hex (lowercase).
pub open spec fn digit_char(d: int) -> char {
    if d == 0 {
        '0'
    } else if d == 1 {
        '1'
    } else if d == 2 {
        '2'
    } else if d == 3 {
        '3'
    } else if d == 4 {
        '4'
    } else if d == 5 {
        '5'
    } else if d == 6 {
        '6'
    } else if d == 7 {
        '7'
    } else if d == 8 {
        '8'
    } else if d == 9 {
        '9'
    } else if d == 10 {
        'a'
    } else if d == 11 {
        'b'
    } else if d == 12 {
        'c'
    } else if d == 13 {
        'd'
    } else if d == 14 {
        'e'
    } else {
        'f'
    }
}

/// The decimal rendering of a natural number, no leading zeros.
pub open spec fn dec_of(n: nat) -> Seq<char>
    decreases n,
{
    if n < 10 {
        seq![digit_char(n as int)]
    } else {
        dec_of(n / 10).push(digit_char((n % 10) as int))
    }
}

/// The decimal rendering of an integer: a leading minus for negatives.
pub open spec fn int_dec_of(i: int) -> Seq<char> {
    if i < 0 {
        seq!['-'] + dec_of((-i) as nat)
    } else {
        dec_of(i as nat)
    }
}

/// The lowercase hex rendering of a byte string, two digits per byte.
pub open spec fn hex_of(bytes: Seq<u8>) -> Seq<char> {
    Seq::new(
        2 * bytes.len(),
        |i: int|
            if i % 2 == 0 {
                digit_char(bytes[i / 2] as int / 16)
            } else {
                digit_char(bytes[i / 2] as int % 16)
            },
    )
}

/// Hex doubles the length: two characters for each byte.
pub proof fn lemma_hex_of_len(bytes: Seq<u8>)
    ensures
        hex_of(bytes).len() == 2 * bytes.len(),
{
}

/// Appending a byte appends its two hex digits.
pub proof fn lemma_hex_of_push(bytes: Seq<u8>, x: u8)
    ensures
        hex_of(bytes.push(x)) == hex_of(bytes) + seq![
            digit_char(x as int / 16),
            digit_char(x as int % 16),
        ],
{
    assert(hex_of(bytes.push(x)) =~= hex_of(bytes) + seq![
        digit_char(x as int / 16),
        digit_char(x as int % 16),
    ]);
}

/// The one-character string for a digit value below sixteen.
pub fn digit_str(d: u8) -> (r: &'static str)
    requires
        d < 16,
    ensures
        r@ == seq![digit_char(d as int)],
{
    proof {
        reveal_strlit("0");
        reveal_strlit("1");
        reveal_strlit("2");
        reveal_strlit("3");
        reveal_strlit("4");
        reveal_strlit("5");
        reveal_strlit("6");
        reveal_strlit("7");
        reveal_strlit("8");
        reveal_strlit("9");
        reveal_strlit("a");
        reveal_strlit("b");
        reveal_strlit("c");
        reveal_strlit("d");
        reveal_strlit("e");
        reveal_strlit("f");
        assert(("0")@ =~= seq!['0']);
        assert(("1")@ =~= seq!['1']);
        assert(("2")@ =~= seq!['2']);
        assert(("3")@ =~= seq!['3']);
        assert(("4")@ =~= seq!['4']);
        assert(("5")@ =~= seq!['5']);
        assert(("6")@ =~= seq!['6']);
        assert(("7")@ =~= seq!['7']);
        assert(("8")@ =~= seq!['8']);
        assert(("9")@ =~= seq!['9']);
        assert(("a")@ =~= seq!['a']);
        assert(("b")@ =~= seq!['b']);
        assert(("c")@ =~= seq!['c']);
        assert(("d")@ =~= seq!['d']);
        assert(("e")@ =~= seq!['e']);
        assert(("f")@ =~= seq!['f']);
    }
    match d {
        0 => "0",
        1 => "1",
        2 => "2",
        3 => "3",
        4 => "4",
        5 => "5",
        6 => "6",
        7 => "7",
        8 => "8",
        9 => "9",
        10 => "a",
        11 => "b",
        12 => "c",
        13 => "d",
        14 => "e",
        _ => "f",
    }
}

/// Appends the decimal rendering of `n`.
pub fn push_dec_u64(out: &mut String, n: u64)
    ensures
        final (out)@ == old(out)@ + dec_of(n as nat),
    decreases n,
{
    if n < 10 {
        out.append(digit_str(n as u8));
    } else {
        push_dec_u64(out, n / 10);
        out.append(digit_str((n % 10) as u8));
        proof {
            assert(out@ =~= old(out)@ + dec_of(n as nat));
        }
    }
}

/// Appends the decimal rendering of a signed value.
pub fn push_dec_i64(out: &mut String, i: i64)
    ensures
        final (out)@ == old(out)@ + int_dec_of(i as int),
{
    if i < 0 {
        proof {
            reveal_strlit("-");
            assert(("-")@ =~= seq!['-']);
        }
        out.append("-");
        let magnitude: u64 = (-(i as i128)) as u64;
        push_dec_u64(out, magnitude);
        proof {
            assert(out@ =~= old(out)@ + int_dec_of(i as int));
        }
    } else {
        push_dec_u64(out, i as u64);
    }
}

/// Appends the lowercase hex rendering of the bytes.
pub fn push_hex_bytes(out: &mut String, bytes: &[u8])
    ensures
        final (out)@ == old(out)@ + hex_of(bytes@),
{
    let n = bytes.len();
    let mut i: usize = 0;
    proof {
        assert(bytes@.take(0int) =~= Seq::<u8>::empty());
    }
    while i < n
        invariant
            i <= n,
            n == bytes@.len(),
            out@ == old(out)@ + hex_of(bytes@.take(i as int)),
        decreases n - i,
    {
        let b = bytes[i];
        out.append(digit_str(b / 16));
        out.append(digit_str(b % 16));
        proof {
            assert(bytes@.take(i + 1int) =~= bytes@.take(i as int).push(b));
            lemma_hex_of_push(bytes@.take(i as int), b);
            assert(out@ =~= old(out)@ + hex_of(bytes@.take(i + 1int)));
        }
        i = i + 1;
    }
    proof {
        assert(bytes@.take(n as int) =~= bytes@);
    }
}

/// The lowercase hex rendering of the bytes, as a fresh string.
pub fn hex_string(bytes: &[u8]) -> (r: String)
    ensures
        r@ == hex_of(bytes@),
{
    let mut out = String::new();
    push_hex_bytes(&mut out, bytes);
    out
}

/// True when the character is one of the sixteen lowercase hex digits.
pub open spec fn is_hex_digit(c: char) -> bool {
    exists|v: int| 0 <= v < 16 && #[trigger] digit_char(v) == c
}

/// The value of one lowercase hex digit, `None` exactly when the
/// character is not one.
pub fn hex_val(c: char) -> (r: Option<u8>)
    ensures
        r is Some ==> r->0 < 16 && digit_char(r->0 as int) == c,
        r is None ==> !is_hex_digit(c),
{
    if c == '0' {
        Some(0)
    } else if c == '1' {
        Some(1)
    } else if c == '2' {
        Some(2)
    } else if c == '3' {
        Some(3)
    } else if c == '4' {
        Some(4)
    } else if c == '5' {
        Some(5)
    } else if c == '6' {
        Some(6)
    } else if c == '7' {
        Some(7)
    } else if c == '8' {
        Some(8)
    } else if c == '9' {
        Some(9)
    } else if c == 'a' {
        Some(10)
    } else if c == 'b' {
        Some(11)
    } else if c == 'c' {
        Some(12)
    } else if c == 'd' {
        Some(13)
    } else if c == 'e' {
        Some(14)
    } else if c == 'f' {
        Some(15)
    } else {
        proof {
            assert forall|v: int| 0 <= v < 16 implies #[trigger] digit_char(v) != c by {}
        }
        None
    }
}

/// Decodes a lowercase hex string back to bytes. `None` exactly on odd
/// length or a character that is not a lowercase hex digit.
pub fn hex_decode(s: &str) -> (r: Option<Vec<u8>>)
    ensures
        r is Some ==> hex_of(r->0@) == s@ && r->0@.len() * 2 == s@.len(),
        r is None ==> s@.len() % 2 != 0 || exists|i: int|
            0 <= i < s@.len() && !is_hex_digit(#[trigger] s@[i]),
{
    let n = s.unicode_len();
    if n % 2 != 0 {
        return None;
    }
    let mut out: Vec<u8> = Vec::new();
    let mut i: usize = 0;
    proof {
        assert(s@.take(0int) =~= Seq::<char>::empty());
        assert(hex_of(Seq::<u8>::empty()) =~= Seq::<char>::empty());
    }
    while i < n / 2
        invariant
            i <= n / 2,
            n % 2 == 0,
            n == s@.len(),
            out@.len() == i,
            hex_of(out@) == s@.take(2 * i as int),
        decreases n / 2 - i,
    {
        let c1 = s.get_char(2 * i);
        let c2 = s.get_char(2 * i + 1);
        let v1 = match hex_val(c1) {
            Some(v) => v,
            None => {
                proof {
                    let j: int = 2 * (i as int);
                    assert(0 <= j < s@.len() && !is_hex_digit(s@[j]));
                }
                return None;
            },
        };
        let v2 = match hex_val(c2) {
            Some(v) => v,
            None => {
                proof {
                    let j: int = 2 * (i as int) + 1;
                    assert(0 <= j < s@.len() && !is_hex_digit(s@[j]));
                }
                return None;
            },
        };
        let b: u8 = v1 * 16 + v2;
        proof {
            lemma_hex_of_push(out@, b);
            assert(b as int / 16 == v1 as int && b as int % 16 == v2 as int);
            assert(s@.take(2 * (i + 1int)) =~= s@.take(2 * i as int) + seq![c1, c2]);
            assert(hex_of(out@.push(b)) =~= s@.take(2 * (i + 1int)));
        }
        out.push(b);
        i = i + 1;
    }
    proof {
        assert(s@.take(2 * (n / 2) as int) =~= s@);
    }
    Some(out)
}

} // verus!
