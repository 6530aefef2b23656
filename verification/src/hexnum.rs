//! Hexadecimal and decimal numerals as character sequences.
//!
//! The JSON-RPC interface carries every number as a `0x`-prefixed
//! hexadecimal string, so parsing and rendering of such numerals is part
//! of the core logic and is specified here down to the character level.

use vstd::arithmetic::div_mod::lemma_fundamental_div_mod;
use vstd::prelude::*;
use vstd::string::StringExecFns;
use vstd::string::StrSliceExecFns;

verus! {

/// A character is a hexadecimal digit: `0-9`, `a-f` or `A-F`.
pub open spec fn is_hex_digit(c: char) -> bool {
    (48 <= c as u32 && c as u32 <= 57) || (97 <= c as u32 && c as u32 <= 102) || (65 <= c as u32
        && c as u32 <= 70)
}

/// Numeric value of a hexadecimal digit character.
pub open spec fn hex_digit_value(c: char) -> nat {
    if 48 <= c as u32 && c as u32 <= 57 {
        (c as u32 - 48) as nat
    } else if 97 <= c as u32 && c as u32 <= 102 {
        (c as u32 - 87) as nat
    } else if 65 <= c as u32 && c as u32 <= 70 {
        (c as u32 - 55) as nat
    } else {
        0
    }
}

/// Every character of `s` is a hexadecimal digit.
pub open spec fn all_hex_digits(s: Seq<char>) -> bool {
    forall|i: int| 0 <= i < s.len() ==> is_hex_digit(#[trigger] s[i])
}

/// Value of a big-endian sequence of hexadecimal digit characters.
pub open spec fn hex_value(s: Seq<char>) -> nat
    decreases s.len(),
{
    if s.len() == 0 {
        0
    } else {
        hex_value(s.drop_last()) * 16 + hex_digit_value(s.last())
    }
}

/// The lower-case digit character for a value below sixteen.
pub open spec fn hex_char(d: nat) -> char {
    if d == 0 {
        '0'
    } else if d == 1 {
        '1'
    } else if d == 2 {
        '2'
    } else if d == 3 {
        '3'
    } else if d == 4 {
        '4'
    } else if d == 5 {
        '5'
    } else if d == 6 {
        '6'
    } else if d == 7 {
        '7'
    } else if d == 8 {
        '8'
    } else if d == 9 {
        '9'
    } else if d == 10 {
        'a'
    } else if d == 11 {
        'b'
    } else if d == 12 {
        'c'
    } else if d == 13 {
        'd'
    } else if d == 14 {
        'e'
    } else if d == 15 {
        'f'
    } else {
        '0'
    }
}

/// Minimal lower-case hexadecimal numeral of `n` (just `0` for zero).
pub open spec fn hex_chars(n: nat) -> Seq<char>
    decreases n,
{
    if n < 16 {
        seq![hex_char(n)]
    } else {
        hex_chars(n / 16).push(hex_char(n % 16))
    }
}

/// Canonical rendering of `n`: `0x` followed by its minimal numeral.
pub open spec fn to_hex_view(n: nat) -> Seq<char> {
    "0x"@ + hex_chars(n)
}

/// Minimal decimal numeral of `n`.
pub open spec fn dec_chars(n: nat) -> Seq<char>
    decreases n,
{
    if n < 10 {
        seq![hex_char(n)]
    } else {
        dec_chars(n / 10).push(hex_char(n % 10))
    }
}

/// Two-digit hexadecimal rendering of one byte.
pub open spec fn byte_hex_chars(b: u8) -> Seq<char> {
    seq![hex_char((b / 16) as nat), hex_char((b % 16) as nat)]
}

/// Hexadecimal rendering of a byte string, two digits per byte.
pub open spec fn bytes_hex_chars(s: Seq<u8>) -> Seq<char>
    decreases s.len(),
{
    if s.len() == 0 {
        Seq::<char>::empty()
    } else {
        bytes_hex_chars(s.drop_last()) + byte_hex_chars(s.last())
    }
}

/// `0x`-prefixed hexadecimal rendering of a byte string.
pub open spec fn hex_0x_of_bytes(s: Seq<u8>) -> Seq<char> {
    "0x"@ + bytes_hex_chars(s)
}

/// The numeral with one optional leading `0x` removed.
pub open spec fn strip_hex_prefix(s: Seq<char>) -> Seq<char> {
    if s.len() >= 2 && s[0] == '0' && s[1] == 'x' {
        s.skip(2)
    } else {
        s
    }
}

/// What parsing a hexadecimal numeral yields: after removing one
/// optional `0x` prefix the remainder must be a non-empty string of
/// hexadecimal digits whose value fits in 128 bits.
pub open spec fn parse_hex_spec(s: Seq<char>) -> Option<u128> {
    let t = strip_hex_prefix(s);
    if t.len() > 0 && all_hex_digits(t) && hex_value(t) <= u128::MAX {
        Some(hex_value(t) as u128)
    } else {
        None
    }
}

/// Appends the digit character for `d`.
fn push_digit(out: &mut String, d: u8)
    requires
        d < 16,
    ensures
        final(out)@ == old(out)@.push(hex_char(d as nat)),
{
    let s: &str = if d == 0 {
        "0"
    } else if d == 1 {
        "1"
    } else if d == 2 {
        "2"
    } else if d == 3 {
        "3"
    } else if d == 4 {
        "4"
    } else if d == 5 {
        "5"
    } else if d == 6 {
        "6"
    } else if d == 7 {
        "7"
    } else if d == 8 {
        "8"
    } else if d == 9 {
        "9"
    } else if d == 10 {
        "a"
    } else if d == 11 {
        "b"
    } else if d == 12 {
        "c"
    } else if d == 13 {
        "d"
    } else if d == 14 {
        "e"
    } else {
        "f"
    };
    proof {
        reveal_strlit("0");
        reveal_strlit("1");
        reveal_strlit("2");
        reveal_strlit("3");
        reveal_strlit("4");
        reveal_strlit("5");
        reveal_strlit("6");
        reveal_strlit("7");
        reveal_strlit("8");
        reveal_strlit("9");
        reveal_strlit("a");
        reveal_strlit("b");
        reveal_strlit("c");
        reveal_strlit("d");
        reveal_strlit("e");
        reveal_strlit("f");
        assert(s@ =~= seq![hex_char(d as nat)]);
    }
    out.append(s);
    proof {
        assert(old(out)@ + s@ =~= old(out)@.push(hex_char(d as nat)));
    }
}

/// Appends the minimal hexadecimal numeral of `n`.
fn push_hex(out: &mut String, n: u128)
    ensures
        final(out)@ == old(out)@ + hex_chars(n as nat),
    decreases n,
{
    if n < 16 {
        push_digit(out, n as u8);
        proof {
            assert(old(out)@.push(hex_char(n as nat)) =~= old(out)@ + hex_chars(n as nat));
        }
    } else {
        push_hex(out, n / 16);
        push_digit(out, (n % 16) as u8);
        proof {
            assert((old(out)@ + hex_chars((n / 16) as nat)).push(hex_char((n % 16) as nat)) =~= old(
                out,
            )@ + hex_chars(n as nat));
        }
    }
}

/// Appends the minimal decimal numeral of `n`.
pub fn push_dec(out: &mut String, n: u64)
    ensures
        final(out)@ == old(out)@ + dec_chars(n as nat),
    decreases n,
{
    if n < 10 {
        push_digit(out, n as u8);
        proof {
            assert(old(out)@.push(hex_char(n as nat)) =~= old(out)@ + dec_chars(n as nat));
        }
    } else {
        push_dec(out, n / 10);
        push_digit(out, (n % 10) as u8);
        proof {
            assert((old(out)@ + dec_chars((n / 10) as nat)).push(hex_char((n % 10) as nat)) =~= old(
                out,
            )@ + dec_chars(n as nat));
        }
    }
}

/// Canonical `0x`-prefixed lower-case rendering of `n`.
pub fn to_hex(n: u128) -> (r: String)
    ensures
        r@ == to_hex_view(n as nat),
{
    let mut out = String::new();
    out.append("0x");
    push_hex(&mut out, n);
    proof {
        assert(Seq::<char>::empty() + "0x"@ + hex_chars(n as nat) =~= to_hex_view(n as nat));
    }
    out
}

/// Appends two hexadecimal digits for each byte of `bytes`.
fn push_bytes_hex(out: &mut String, bytes: &Vec<u8>)
    ensures
        final(out)@ == old(out)@ + bytes_hex_chars(bytes@),
{
    let mut i: usize = 0;
    while i < bytes.len()
        invariant
            i <= bytes.len(),
            out@ == old(out)@ + bytes_hex_chars(bytes@.take(i as int)),
        decreases bytes.len() - i,
    {
        let b = bytes[i];
        push_digit(out, b / 16);
        push_digit(out, b % 16);
        proof {
            assert(bytes@.take(i + 1).drop_last() =~= bytes@.take(i as int));
            assert((old(out)@ + bytes_hex_chars(bytes@.take(i as int))).push(
                hex_char((b / 16) as nat),
            ).push(hex_char((b % 16) as nat)) =~= old(out)@ + bytes_hex_chars(bytes@.take(i + 1)));
        }
        i = i + 1;
    }
    proof {
        assert(bytes@.take(bytes@.len() as int) =~= bytes@);
    }
}

/// `0x`-prefixed lower-case hexadecimal rendering of a byte string.
pub fn bytes_to_hex(bytes: &Vec<u8>) -> (r: String)
    ensures
        r@ == hex_0x_of_bytes(bytes@),
{
    let mut out = String::new();
    out.append("0x");
    push_bytes_hex(&mut out, bytes);
    proof {
        assert(Seq::<char>::empty() + "0x"@ + bytes_hex_chars(bytes@) =~= hex_0x_of_bytes(bytes@));
    }
    out
}

/// Classifies one character as a hexadecimal digit and gives its value.
pub fn hex_digit_of(c: char) -> (r: Option<u8>)
    ensures
        match r {
            Some(d) => is_hex_digit(c) && d < 16 && d as nat == hex_digit_value(c),
            None => !is_hex_digit(c),
        },
{
    let code = c as u32;
    if 48 <= code && code <= 57 {
        Some((code - 48) as u8)
    } else if 97 <= code && code <= 102 {
        Some((code - 87) as u8)
    } else if 65 <= code && code <= 70 {
        Some((code - 55) as u8)
    } else {
        None
    }
}

/// Parses a hexadecimal numeral with an optional `0x` prefix.
///
/// Returns `None` exactly when the digit string is empty, holds a
/// character that is not a hexadecimal digit, or denotes a value above
/// `u128::MAX`.
pub fn parse_hex(s: &str) -> (r: Option<u128>)
    ensures
        r == parse_hex_spec(s@),
{
    let len = s.unicode_len();
    let start: usize = if len >= 2 && s.get_char(0) == '0' && s.get_char(1) == 'x' {
        2
    } else {
        0
    };
    let ghost t = strip_hex_prefix(s@);
    proof {
        assert(t =~= s@.skip(start as int));
    }
    if start >= len {
        proof {
            assert(t.len() == 0);
        }
        return None;
    }
    let mut acc: u128 = 0;
    let mut i: usize = start;
    while i < len
        invariant
            start <= i <= len,
            len == s@.len(),
            start == 0 || start == 2,
            t == strip_hex_prefix(s@),
            t == s@.skip(start as int),
            t.len() == len - start,
            forall|j: int| 0 <= j < i - start ==> is_hex_digit(#[trigger] t[j]),
            acc as nat == hex_value(t.take(i - start)),
        decreases len - i,
    {
        let c = s.get_char(i);
        proof {
            assert(t[i - start] == s@[i as int]);
        }
        let code = c as u32;
        let d: u128 = if 48 <= code && code <= 57 {
            (code - 48) as u128
        } else if 97 <= code && code <= 102 {
            (code - 87) as u128
        } else if 65 <= code && code <= 70 {
            (code - 55) as u128
        } else {
            proof {
                assert(!is_hex_digit(t[i - start]));
                assert(!all_hex_digits(t)) by {
                    if all_hex_digits(t) {
                        assert(is_hex_digit(t[i - start]));
                    }
                }
            }
            return None;
        };
        proof {
            assert(is_hex_digit(t[i - start]));
            assert(d as nat == hex_digit_value(t[i - start]));
        }
        if acc > (u128::MAX - d) / 16 {
            proof {
                lemma_hex_value_take_succ(t, i - start);
                lemma_fundamental_div_mod((u128::MAX - d) as int, 16);
                assert(acc * 16 + d > u128::MAX);
                lemma_hex_value_prefix_bound(t, i + 1 - start);
                assert(hex_value(t) > u128::MAX);
            }
            return None;
        }
        proof {
            lemma_hex_value_take_succ(t, i - start);
            lemma_fundamental_div_mod((u128::MAX - d) as int, 16);
            assert(acc * 16 + d <= u128::MAX);
        }
        acc = acc * 16 + d;
        i = i + 1;
    }
    proof {
        assert(t.take(t.len() as int) =~= t);
    }
    Some(acc)
}

/// The value of a digit string grows or stays equal as digits are appended:
/// the value of a prefix never exceeds the value of the whole.
pub proof fn lemma_hex_value_prefix_bound(s: Seq<char>, i: int)
    requires
        0 <= i <= s.len(),
    ensures
        hex_value(s.take(i)) <= hex_value(s),
    decreases s.len() - i,
{
    if i < s.len() {
        lemma_hex_value_take_succ(s, i);
        lemma_hex_value_prefix_bound(s, i + 1);
    } else {
        assert(s.take(i) =~= s);
    }
}

/// Appending one digit multiplies the value by sixteen and adds the digit.
pub proof fn lemma_hex_value_take_succ(s: Seq<char>, i: int)
    requires
        0 <= i < s.len(),
    ensures
        hex_value(s.take(i + 1)) == hex_value(s.take(i)) * 16 + hex_digit_value(s[i]),
{
    assert(s.take(i + 1).drop_last() =~= s.take(i));
    assert(s.take(i + 1).last() == s[i]);
}

/// The minimal numeral of `n` is non-empty and made of digits only.
pub proof fn lemma_hex_chars_wf(n: nat)
    ensures
        hex_chars(n).len() >= 1,
        all_hex_digits(hex_chars(n)),
    decreases n,
{
    if n >= 16 {
        lemma_hex_chars_wf(n / 16);
        assert forall|i: int| 0 <= i < hex_chars(n).len() implies is_hex_digit(
            #[trigger] hex_chars(n)[i],
        ) by {
            if i < hex_chars(n / 16).len() {
                assert(hex_chars(n)[i] == hex_chars(n / 16)[i]);
            } else {
                assert(hex_chars(n)[i] == hex_char(n % 16));
            }
        }
    }
}

/// The digit character of a value below sixteen evaluates back to it.
pub proof fn lemma_hex_digit_inverse(d: nat)
    requires
        d < 16,
    ensures
        is_hex_digit(hex_char(d)),
        hex_digit_value(hex_char(d)) == d,
{
}

/// Rendering then evaluating a numeral gives the number back.
pub proof fn lemma_hex_chars_value(n: nat)
    ensures
        hex_value(hex_chars(n)) == n,
    decreases n,
{
    if n < 16 {
        lemma_hex_digit_inverse(n);
        assert(hex_chars(n).drop_last() =~= Seq::<char>::empty());
        assert(hex_value(hex_chars(n)) == hex_value(hex_chars(n).drop_last()) * 16
            + hex_digit_value(hex_chars(n).last()));
    } else {
        lemma_hex_chars_value(n / 16);
        lemma_hex_digit_inverse(n % 16);
        lemma_fundamental_div_mod(n as int, 16);
        assert(hex_chars(n).drop_last() =~= hex_chars(n / 16));
    }
}

/// Round trip: parsing the canonical rendering of any 128-bit value
/// gives that value back.
pub proof fn lemma_hex_round_trip(n: u128)
    ensures
        parse_hex_spec(to_hex_view(n as nat)) == Some(n),
{
    reveal_strlit("0x");
    let s = to_hex_view(n as nat);
    lemma_hex_chars_wf(n as nat);
    assert(s[0] == '0' && s[1] == 'x');
    assert(strip_hex_prefix(s) =~= hex_chars(n as nat));
    lemma_hex_chars_value(n as nat);
}

} // verus!
