//! Decimal numerals: the spec-level reading and writing of base-10 text for
//! `u64` values, an executable renderer, and an executable parser that follows
//! the standard library's rules for unsigned integer parsing.

use vstd::prelude::*;

verus! {

/// A decimal digit character.
pub open spec fn is_digit_char(c: char) -> bool {
    48 <= c as u32 && c as u32 <= 57
}

/// The numeric value of a digit character.
pub open spec fn digit_value(c: char) -> int {
    c as u32 - 48
}

/// Every character of the sequence is a decimal digit.
pub open spec fn all_digits(s: Seq<char>) -> bool {
    forall|i: int| 0 <= i < s.len() ==> is_digit_char(#[trigger] s[i])
}

/// The integer that a sequence of digit characters denotes, most significant
/// digit first.
pub open spec fn dec_value(s: Seq<char>) -> int
    decreases s.len(),
{
    if s.len() == 0 {
        0
    } else {
        dec_value(s.drop_last()) * 10 + digit_value(s.last())
    }
}

/// The digit character for a value below ten.
pub open spec fn digit_char(d: int) -> char {
    if d == 0 { '0' }
    else if d == 1 { '1' }
    else if d == 2 { '2' }
    else if d == 3 { '3' }
    else if d == 4 { '4' }
    else if d == 5 { '5' }
    else if d == 6 { '6' }
    else if d == 7 { '7' }
    else if d == 8 { '8' }
    else { '9' }
}

/// The canonical decimal numeral of a non-negative integer: no sign, no
/// leading zero except for zero itself.
pub open spec fn dec_str(n: int) -> Seq<char>
    decreases n,
{
    if n < 0 {
        Seq::empty()
    } else if n < 10 {
        seq![digit_char(n)]
    } else {
        dec_str(n / 10).push(digit_char(n % 10))
    }
}

/// A digit sequence denotes a non-negative integer.
pub proof fn lemma_dec_value_non_negative(s: Seq<char>)
    requires
        all_digits(s),
    ensures
        dec_value(s) >= 0,
    decreases s.len(),
{
    if s.len() > 0 {
        assert(all_digits(s.drop_last())) by {
            assert forall|i: int| 0 <= i < s.drop_last().len()
                implies is_digit_char(#[trigger] s.drop_last()[i]) by {
                assert(s.drop_last()[i] == s[i]);
            }
        }
        lemma_dec_value_non_negative(s.drop_last());
    }
}

/// A one-character string for each digit value.
fn digit_str(d: u64) -> (r: &'static str)
    requires
        d < 10,
    ensures
        r@ =~= seq![digit_char(d as int)],
{
    proof {
        reveal_strlit("0");
        reveal_strlit("1");
        reveal_strlit("2");
        reveal_strlit("3");
        reveal_strlit("4");
        reveal_strlit("5");
        reveal_strlit("6");
        reveal_strlit("7");
        reveal_strlit("8");
        reveal_strlit("9");
    }
    match d {
        0 => "0",
        1 => "1",
        2 => "2",
        3 => "3",
        4 => "4",
        5 => "5",
        6 => "6",
        7 => "7",
        8 => "8",
        _ => "9",
    }
}

/// Renders a `u64` as its canonical decimal numeral.
pub fn u64_to_string(n: u64) -> (r: String)
    ensures
        r@ == dec_str(n as int),
    decreases n,
{
    if n < 10 {
        let r = String::from_str(digit_str(n));
        proof {
            assert(r@ =~= dec_str(n as int));
        }
        r
    } else {
        let mut prefix = u64_to_string(n / 10);
        prefix.append(digit_str(n % 10));
        proof {
            assert(prefix@ =~= dec_str((n / 10) as int).push(digit_char((n % 10) as int)));
            assert(prefix@ =~= dec_str(n as int));
        }
        prefix
    }
}

/// The digits of a numeral after an optional leading plus sign.
pub open spec fn unsigned_part(s: Seq<char>) -> Seq<char> {
    if s.len() > 0 && s[0] == '+' {
        s.subrange(1, s.len() as int)
    } else {
        s
    }
}

/// The texts that the standard library parses as a `u64`: an optional plus
/// sign, then at least one digit, denoting a value that fits in 64 bits.
pub open spec fn is_u64_numeral(s: Seq<char>) -> bool {
    let d = unsigned_part(s);
    d.len() > 0 && all_digits(d) && dec_value(d) <= u64::MAX
}

/// The value a text denotes as a `u64` numeral, and zero when it is none.
pub open spec fn parsed_u64_or_zero(s: Seq<char>) -> u64 {
    if is_u64_numeral(s) {
        dec_value(unsigned_part(s)) as u64
    } else {
        0
    }
}

/// Each digit character is a digit and carries its own value.
proof fn lemma_digit_char_value(d: int)
    requires
        0 <= d < 10,
    ensures
        is_digit_char(digit_char(d)),
        digit_value(digit_char(d)) == d,
{
}

/// Rendering is faithful: the canonical numeral of a non-negative integer is
/// all digits and denotes the integer itself.
pub proof fn lemma_dec_str_value(n: int)
    requires
        0 <= n,
    ensures
        dec_str(n).len() >= 1,
        all_digits(dec_str(n)),
        dec_value(dec_str(n)) == n,
    decreases n,
{
    if n < 10 {
        reveal_with_fuel(dec_value, 2);
        lemma_digit_char_value(n);
        assert(dec_str(n).drop_last() =~= Seq::<char>::empty());
        assert(dec_str(n).last() == digit_char(n));
        assert(dec_value(Seq::<char>::empty()) == 0);
    } else {
        lemma_dec_str_value(n / 10);
        lemma_digit_char_value(n % 10);
        lemma_dec_value_push(dec_str(n / 10), digit_char(n % 10));
        assert(all_digits(dec_str(n))) by {
            assert forall|i: int| 0 <= i < dec_str(n).len()
                implies is_digit_char(#[trigger] dec_str(n)[i]) by {
                if i < dec_str(n / 10).len() {
                    assert(dec_str(n)[i] == dec_str(n / 10)[i]);
                } else {
                    assert(dec_str(n)[i] == digit_char(n % 10));
                }
            }
        }
    }
}

/// A rendered numeral is parsed back to the value it was rendered from.
pub proof fn lemma_numeral_round_trip(n: u64)
    ensures
        is_u64_numeral(dec_str(n as int)),
        parsed_u64_or_zero(dec_str(n as int)) == n,
{
    lemma_dec_str_value(n as int);
    assert(is_digit_char(dec_str(n as int)[0]));
    assert(dec_str(n as int)[0] != '+');
    assert(unsigned_part(dec_str(n as int)) == dec_str(n as int));
}

/// Appending a digit multiplies the value by ten and adds the digit.
pub proof fn lemma_dec_value_push(t: Seq<char>, c: char)
    ensures
        dec_value(t.push(c)) == dec_value(t) * 10 + digit_value(c),
{
    assert(t.push(c).drop_last() =~= t);
    assert(t.push(c).last() == c);
}

/// Parses a `u64` numeral as the standard library does: `Some` exactly on an
/// optional plus sign followed by digits whose value fits in 64 bits.
pub fn parse_u64(s: &str) -> (r: Option<u64>)
    ensures
        r matches Some(n) ==> is_u64_numeral(s@) && n == dec_value(unsigned_part(s@)),
        r is None ==> !is_u64_numeral(s@),
{
    let len = s.unicode_len();
    let start: usize = if len > 0 && s.get_char(0) == '+' {
        1
    } else {
        0
    };
    assert(unsigned_part(s@).len() == len - start);
    if start >= len {
        return None;
    }
    let mut i = start;
    let mut acc: u64 = 0;
    let mut overflow = false;
    while i < len
        invariant
            len == s@.len(),
            start <= i <= len,
            start <= 1,
            (start == 1) == (s@.len() > 0 && s@[0] == '+'),
            unsigned_part(s@).len() == len - start,
            forall|j: int| 0 <= j < i - start ==> is_digit_char(#[trigger] unsigned_part(s@)[j]),
            !overflow ==> acc == dec_value(unsigned_part(s@).subrange(0, i - start)),
            overflow ==> dec_value(unsigned_part(s@).subrange(0, i - start)) > u64::MAX,
        decreases len - i,
    {
        let ghost d = unsigned_part(s@);
        let ghost j = i - start;
        let c = s.get_char(i);
        proof {
            assert(c == d[j]);
        }
        let u = c as u32;
        if u < 48 || u > 57 {
            proof {
                assert(!is_digit_char(d[j]));
            }
            return None;
        }
        let dv: u64 = (u - 48) as u64;
        proof {
            assert(d.subrange(0, j + 1) =~= d.subrange(0, j).push(d[j]));
            lemma_dec_value_push(d.subrange(0, j), d[j]);
        }
        if !overflow {
            if acc > u64::MAX / 10 || (acc == u64::MAX / 10 && dv > u64::MAX % 10) {
                overflow = true;
            } else {
                acc = acc * 10 + dv;
            }
        }
        i = i + 1;
    }
    proof {
        assert(unsigned_part(s@).subrange(0, (len - start) as int) =~= unsigned_part(s@));
    }
    if overflow {
        None
    } else {
        Some(acc)
    }
}

} // verus!
